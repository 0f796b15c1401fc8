use vstd::prelude::*;

verus! {

pub open spec fn is_digit(c: char) -> bool {
    '0' <= c && c <= '9'
}

pub open spec fn digit_value(c: char) -> int {
    (c as u32) as int - ('0' as u32) as int
}

/// `x`, held to the range of `u64`.
pub open spec fn saturate(x: int) -> u64 {
    if x > u64::MAX {
        u64::MAX
    } else {
        x as u64
    }
}

/// Numeric components of a dotted version string, read left to right: a `.`
/// starts a new component, a digit extends the current one in base ten
/// (saturating at `u64::MAX`), and any other character is skipped.
pub open spec fn components(s: Seq<char>) -> Seq<u64>
    decreases s.len(),
{
    if s.len() == 0 {
        seq![0u64]
    } else {
        let p = components(s.drop_last());
        let c = s.last();
        if c == '.' {
            p.push(0u64)
        } else if is_digit(c) && p.len() > 0 {
            p.update(p.len() - 1, saturate(p.last() as int * 10 + digit_value(c)))
        } else {
            p
        }
    }
}

/// Component `i` of `v`, where missing trailing components count as zero.
pub open spec fn part(v: Seq<u64>, i: int) -> int {
    if 0 <= i < v.len() {
        v[i] as int
    } else {
        0
    }
}

/// Lexicographic comparison of `a` and `b` from component `i` on.
pub open spec fn at_least_from(a: Seq<u64>, b: Seq<u64>, i: int) -> bool
    decreases a.len() + b.len() - i,
{
    if i < 0 || (i >= a.len() && i >= b.len()) {
        true
    } else if part(a, i) != part(b, i) {
        part(a, i) > part(b, i)
    } else {
        at_least_from(a, b, i + 1)
    }
}

/// Version `found` is at or above version `min`.
pub open spec fn at_least(found: Seq<char>, min: Seq<char>) -> bool {
    at_least_from(components(found), components(min), 0)
}

proof fn lemma_components_nonempty(s: Seq<char>)
    ensures
        components(s).len() >= 1,
    decreases s.len(),
{
    if s.len() > 0 {
        lemma_components_nonempty(s.drop_last());
    }
}

/// Splits a version string such as `0.52.20` into its numeric components.
pub fn parse_version(s: &str) -> (r: Vec<u64>)
    ensures
        r@ == components(s@),
{
    let n = s.unicode_len();
    let mut parts: Vec<u64> = Vec::new();
    let mut cur: u64 = 0;
    let mut i: usize = 0;
    proof {
        assert(s@.take(0) =~= Seq::<char>::empty());
    }
    while i < n
        invariant
            n == s@.len(),
            i <= n,
            parts@.push(cur) == components(s@.take(i as int)),
        decreases n - i,
    {
        let c = s.get_char(i);
        proof {
            assert(s@.take(i as int + 1).drop_last() =~= s@.take(i as int));
            lemma_components_nonempty(s@.take(i as int));
        }
        if c == '.' {
            parts.push(cur);
            cur = 0;
            proof {
                assert(parts@.push(cur) =~= components(s@.take(i as int + 1)));
            }
        } else if '0' <= c && c <= '9' {
            let d: u64 = (c as u32 - '0' as u32) as u64;
            let next: u64 = match cur.checked_mul(10) {
                Some(m) => match m.checked_add(d) {
                    Some(v) => v,
                    None => u64::MAX,
                },
                None => u64::MAX,
            };
            assert(next == saturate(cur as int * 10 + digit_value(c)));
            cur = next;
            proof {
                assert(parts@.push(cur) =~= components(s@.take(i as int + 1)));
            }
        } else {
            proof {
                assert(parts@.push(cur) =~= components(s@.take(i as int + 1)));
            }
        }
        i = i + 1;
    }
    proof {
        assert(s@.take(n as int) =~= s@);
    }
    parts.push(cur);
    parts
}

/// Whether version `found` is at or above version `min`: components are
/// compared as numbers from the left, a missing component counting as zero.
pub fn version_at_least(found: &str, min: &str) -> (r: bool)
    ensures
        r == at_least(found@, min@),
{
    let a = parse_version(found);
    let b = parse_version(min);
    let mut i: usize = 0;
    while i < a.len() || i < b.len()
        invariant
            a@ == components(found@),
            b@ == components(min@),
            at_least(found@, min@) == at_least_from(a@, b@, i as int),
        decreases a@.len() + b@.len() - i,
    {
        let x: u64 = if i < a.len() { a[i] } else { 0 };
        let y: u64 = if i < b.len() { b[i] } else { 0 };
        if x != y {
            return x > y;
        }
        i = i + 1;
    }
    true
}

} // verus!
