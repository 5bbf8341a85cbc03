//! Register names: `x0`..`x31`, the ABI names and `fp`.
use vstd::prelude::*;

verus! {

/// The ABI name of register `i`, as bytes.
pub open spec fn abi_name(i: u8) -> Seq<u8> {
    match i {
        0 => seq![122u8, 101, 114, 111],  // zero
        1 => seq![114u8, 97],  // ra
        2 => seq![115u8, 112],  // sp
        3 => seq![103u8, 112],  // gp
        4 => seq![116u8, 112],  // tp
        5 => seq![116u8, 48],  // t0
        6 => seq![116u8, 49],  // t1
        7 => seq![116u8, 50],  // t2
        8 => seq![115u8, 48],  // s0
        9 => seq![115u8, 49],  // s1
        10 => seq![97u8, 48],  // a0
        11 => seq![97u8, 49],  // a1
        12 => seq![97u8, 50],  // a2
        13 => seq![97u8, 51],  // a3
        14 => seq![97u8, 52],  // a4
        15 => seq![97u8, 53],  // a5
        16 => seq![97u8, 54],  // a6
        17 => seq![97u8, 55],  // a7
        18 => seq![115u8, 50],  // s2
        19 => seq![115u8, 51],  // s3
        20 => seq![115u8, 52],  // s4
        21 => seq![115u8, 53],  // s5
        22 => seq![115u8, 54],  // s6
        23 => seq![115u8, 55],  // s7
        24 => seq![115u8, 56],  // s8
        25 => seq![115u8, 57],  // s9
        26 => seq![115u8, 49, 48],  // s10
        27 => seq![115u8, 49, 49],  // s11
        28 => seq![116u8, 51],  // t3
        29 => seq![116u8, 52],  // t4
        30 => seq![116u8, 53],  // t5
        31 => seq![116u8, 54],  // t6
        _ => seq![],
    }
}

/// The first register from `i` on whose ABI name is `s`.
pub open spec fn abi_lookup(s: Seq<u8>, i: int) -> Option<u8>
    decreases 32 - i,
{
    if i >= 32 || i < 0 {
        None
    } else if abi_name(i as u8) == s {
        Some(i as u8)
    } else {
        abi_lookup(s, i + 1)
    }
}

pub open spec fn is_digit(b: u8) -> bool {
    48 <= b <= 57
}

/// The register a name denotes: `x` and a decimal number below 32 without
/// leading zero, `fp` (an alias of `s0`), or an ABI name.
pub open spec fn reg_index_spec(s: Seq<u8>) -> Option<u8> {
    if s.len() == 2 && s[0] == 120 && is_digit(s[1]) {
        Some((s[1] - 48) as u8)
    } else if s.len() == 3 && s[0] == 120 && 49 <= s[1] <= 51 && is_digit(s[2]) && 10 * (s[1]
        - 48) + (s[2] - 48) < 32 {
        Some((10 * (s[1] - 48) + (s[2] - 48)) as u8)
    } else if s == seq![102u8, 112] {
        Some(8)
    } else {
        abi_lookup(s, 0)
    }
}

/// A register name denotes one of the 32 registers.
pub proof fn lemma_reg_index_bound(s: Seq<u8>)
    ensures
        reg_index_spec(s) matches Some(i) ==> i < 32,
{
    lemma_abi_lookup_bound(s, 0);
}

proof fn lemma_abi_lookup_bound(s: Seq<u8>, i: int)
    ensures
        abi_lookup(s, i) matches Some(j) ==> j < 32,
    decreases 32 - i,
{
    if 0 <= i < 32 {
        lemma_abi_lookup_bound(s, i + 1);
    }
}

fn abi_entry(i: u8) -> (r: Vec<u8>)
    requires
        i < 32,
    ensures
        r@ == abi_name(i),
{
    match i {
        0 => vec![122u8, 101, 114, 111],  // zero
        1 => vec![114u8, 97],  // ra
        2 => vec![115u8, 112],  // sp
        3 => vec![103u8, 112],  // gp
        4 => vec![116u8, 112],  // tp
        5 => vec![116u8, 48],  // t0
        6 => vec![116u8, 49],  // t1
        7 => vec![116u8, 50],  // t2
        8 => vec![115u8, 48],  // s0
        9 => vec![115u8, 49],  // s1
        10 => vec![97u8, 48],  // a0
        11 => vec![97u8, 49],  // a1
        12 => vec![97u8, 50],  // a2
        13 => vec![97u8, 51],  // a3
        14 => vec![97u8, 52],  // a4
        15 => vec![97u8, 53],  // a5
        16 => vec![97u8, 54],  // a6
        17 => vec![97u8, 55],  // a7
        18 => vec![115u8, 50],  // s2
        19 => vec![115u8, 51],  // s3
        20 => vec![115u8, 52],  // s4
        21 => vec![115u8, 53],  // s5
        22 => vec![115u8, 54],  // s6
        23 => vec![115u8, 55],  // s7
        24 => vec![115u8, 56],  // s8
        25 => vec![115u8, 57],  // s9
        26 => vec![115u8, 49, 48],  // s10
        27 => vec![115u8, 49, 49],  // s11
        28 => vec![116u8, 51],  // t3
        29 => vec![116u8, 52],  // t4
        30 => vec![116u8, 53],  // t5
        31 => vec![116u8, 54],  // t6
        _ => vec![],
    }
}

fn bytes_eq(a: &[u8], b: &Vec<u8>) -> (r: bool)
    ensures
        r == (a@ == b@),
{
    if a.len() != b.len() {
        return false;
    }
    let mut i: usize = 0;
    while i < a.len()
        invariant
            a@.len() == b@.len(),
            0 <= i <= a@.len(),
            forall|j: int| 0 <= j < i ==> a@[j] == b@[j],
        decreases a@.len() - i,
    {
        if a[i] != b[i] {
            return false;
        }
        i = i + 1;
    }
    assert(a@ =~= b@);
    true
}

/// The index of the register called `name`, if any.
pub fn reg_index(name: &[u8]) -> (r: Option<u8>)
    ensures
        r == reg_index_spec(name@),
{
    let n = name.len();
    if n == 2 && name[0] == 120 && 48 <= name[1] && name[1] <= 57 {
        return Some(name[1] - 48);
    }
    if n == 3 && name[0] == 120 && 49 <= name[1] && name[1] <= 51 && 48 <= name[2] && name[2] <= 57 {
        let v = 10 * (name[1] - 48) + (name[2] - 48);
        if v < 32 {
            return Some(v);
        }
    }
    if n == 2 && name[0] == 102 && name[1] == 112 {
        assert(name@ =~= seq![102u8, 112]);
        return Some(8);
    }
    let mut i: u8 = 0;
    while i < 32
        invariant
            0 <= i <= 32,
            abi_lookup(name@, 0) == abi_lookup(name@, i as int),
        decreases 32 - i,
    {
        let entry = abi_entry(i);
        if bytes_eq(name, &entry) {
            return Some(i);
        }
        i = i + 1;
    }
    None
}

} // verus!
