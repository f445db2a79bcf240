use vstd::prelude::*;
use vstd::string::StrSliceExecFns;

verus! {

pub open spec fn spec_digit_chars(s: Seq<char>) -> bool {
    forall|i: int| 0 <= i < s.len() ==> 48 <= (#[trigger] s[i]) as int <= 57
}

/// The number that a run of digit characters denotes.
pub open spec fn spec_char_digits_value(s: Seq<char>) -> int
    decreases s.len(),
{
    if s.len() == 0 {
        0
    } else {
        spec_char_digits_value(s.drop_last()) * 10 + (s.last() as int - 48)
    }
}

/// What an entry name under the versions root denotes: `v` followed by
/// decimal digits names that game version, when the number fits a `u32`;
/// anything else is not an installed version.
pub open spec fn spec_parse_version_name(s: Seq<char>) -> Option<u32> {
    if s.len() < 2 || s[0] != 'v' || !spec_digit_chars(s.skip(1)) {
        None
    } else if spec_char_digits_value(s.skip(1)) >= 0x1_0000_0000 {
        None
    } else {
        Some(spec_char_digits_value(s.skip(1)) as u32)
    }
}

/// A digit run's value never shrinks when digits are appended.
proof fn lemma_char_digits_value_prefix(s: Seq<char>, i: int)
    requires
        0 <= i <= s.len(),
        spec_digit_chars(s),
    ensures
        spec_char_digits_value(s.take(i)) <= spec_char_digits_value(s),
    decreases s.len() - i,
{
    if i < s.len() {
        lemma_char_digits_value_prefix(s, i + 1);
        assert(spec_digit_chars(s.take(i)));
        lemma_char_digits_value_nonneg(s.take(i));
        let t = s.take(i + 1);
        assert(t.drop_last() =~= s.take(i));
        assert(spec_char_digits_value(s.take(i)) <= spec_char_digits_value(s.take(i)) * 10 + (
        t.last() as int - 48)) by (nonlinear_arith)
            requires
                48 <= t.last() as int,
                spec_char_digits_value(s.take(i)) >= 0,
        ;
    } else {
        assert(s.take(i) =~= s);
    }
}

proof fn lemma_char_digits_value_nonneg(s: Seq<char>)
    requires
        spec_digit_chars(s),
    ensures
        spec_char_digits_value(s) >= 0,
    decreases s.len(),
{
    if s.len() > 0 {
        assert(spec_digit_chars(s.drop_last()));
        lemma_char_digits_value_nonneg(s.drop_last());
        assert(spec_char_digits_value(s) >= 0) by (nonlinear_arith)
            requires
                spec_char_digits_value(s.drop_last()) >= 0,
                48 <= s.last() as int,
                spec_char_digits_value(s) == spec_char_digits_value(s.drop_last()) * 10 + (
                s.last() as int - 48),
        ;
    }
}

/// Parses a directory name of the `v<number>` convention into its game
/// version.
pub fn parse_version_name(name: &str) -> (r: Option<u32>)
    ensures
        r == spec_parse_version_name(name@),
{
    let ghost s = name@;
    let len = name.unicode_len();
    if len < 2 {
        return None;
    }
    if name.get_char(0) != 'v' {
        return None;
    }
    let ghost digits = s.skip(1);
    let mut acc: u64 = 0;
    let mut i: usize = 1;
    while i < len
        invariant
            1 <= i <= len,
            len == s.len(),
            len >= 2,
            s == name@,
            digits == s.skip(1),
            spec_digit_chars(digits.take(i - 1)),
            acc == spec_char_digits_value(digits.take(i - 1)),
            acc <= 0xffff_ffff,
        decreases len - i,
    {
        let c = name.get_char(i);
        let d = c as u32;
        if d < 48 || d > 57 {
            proof {
                assert(digits[i - 1] == c);
            }
            return None;
        }
        acc = acc * 10 + ((d - 48) as u64);
        proof {
            assert(digits.take(i as int).drop_last() =~= digits.take(i - 1));
            assert(digits.take(i as int).last() == c);
        }
        i = i + 1;
        if acc > 0xffff_ffff {
            proof {
                if spec_digit_chars(digits) {
                    lemma_char_digits_value_prefix(digits, i - 1);
                }
            }
            return None;
        }
    }
    proof {
        assert(digits.take(len - 1) =~= digits);
    }
    Some(acc as u32)
}

/// Picks the latest installed version from the names found under the
/// versions root: the greatest number among names of the `v<number>`
/// convention, together with the index of its (first) directory name.
pub fn latest_installed_version(names: &Vec<String>) -> (r: Option<(u32, usize)>)
    ensures
        r is None ==> forall|j: int|
            0 <= j < names@.len() ==> spec_parse_version_name((#[trigger] names@[j])@) is None,
        r matches Some((v, idx)) ==> {
            &&& (idx as int) < names@.len()
            &&& spec_parse_version_name(names@[idx as int]@) == Some(v)
            &&& forall|j: int|
                0 <= j < names@.len() ==> (spec_parse_version_name((#[trigger] names@[j])@)
                    matches Some(w) ==> w <= v)
            &&& forall|j: int|
                0 <= j < idx as int ==> (spec_parse_version_name((#[trigger] names@[j])@)
                    matches Some(w) ==> w < v)
        },
{
    let mut best: Option<(u32, usize)> = None;
    let n = names.len();
    let mut i: usize = 0;
    while i < n
        invariant
            i <= n,
            n == names@.len(),
            best is None ==> forall|j: int|
                0 <= j < i ==> spec_parse_version_name((#[trigger] names@[j])@) is None,
            best matches Some((v, idx)) ==> {
                &&& (idx as int) < i as int
                &&& spec_parse_version_name(names@[idx as int]@) == Some(v)
                &&& forall|j: int|
                    0 <= j < i ==> (spec_parse_version_name((#[trigger] names@[j])@)
                        matches Some(w) ==> w <= v)
                &&& forall|j: int|
                    0 <= j < idx as int ==> (spec_parse_version_name((#[trigger] names@[j])@)
                        matches Some(w) ==> w < v)
            },
        decreases n - i,
    {
        let parsed = parse_version_name(names[i].as_str());
        if let Some(v) = parsed {
            let replace = match best {
                None => true,
                Some((bv, _)) => v > bv,
            };
            if replace {
                best = Some((v, i));
            }
        }
        i = i + 1;
    }
    best
}

} // verus!
