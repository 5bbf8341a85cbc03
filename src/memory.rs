//! Flat, byte-addressed, little-endian memory starting at a base address.
use vstd::prelude::*;
use crate::error::SimError;

verus! {

/// The value of `n` bytes of `s` read little-endian from index `i`.
pub open spec fn le_value(s: Seq<u8>, i: int, n: nat) -> nat
    decreases n,
{
    if n == 0 {
        0
    } else {
        s[i] as nat + 256 * le_value(s, i + 1, (n - 1) as nat)
    }
}

pub open spec fn pow256(n: nat) -> nat
    decreases n,
{
    if n == 0 {
        1
    } else {
        256 * pow256((n - 1) as nat)
    }
}

/// Byte `j` (little-endian) of a 64-bit value.
pub open spec fn byte_of(v: u64, j: int) -> u8 {
    ((v >> (8 * j) as u64) & 0xff) as u8
}

proof fn lemma_le_value_bound(s: Seq<u8>, i: int, n: nat)
    ensures
        le_value(s, i, n) < pow256(n),
    decreases n,
{
    if n > 0 {
        lemma_le_value_bound(s, i + 1, (n - 1) as nat);
        let rest = le_value(s, i + 1, (n - 1) as nat);
        let p = pow256((n - 1) as nat);
        let b = s[i] as nat;
        assert(b + 256 * rest < 256 * p) by (nonlinear_arith)
            requires
                b < 256,
                rest < p,
        ;
    }
}

/// `bytes` with the `n` low bytes of `val` written little-endian from index `off`.
pub open spec fn stored(bytes: Seq<u8>, off: int, n: int, val: u64) -> Seq<u8> {
    Seq::new(bytes.len(), |i: int| if off <= i < off + n { byte_of(val, i - off) } else { bytes[i] })
}

pub struct VirtualMemory {
    pub base: u64,
    pub bytes: Vec<u8>,
}

impl VirtualMemory {
    /// `n` bytes from `addr` lie inside the memory.
    pub open spec fn in_range(&self, addr: u64, n: nat) -> bool {
        self.base <= addr && (addr - self.base) + n <= self.bytes@.len()
    }

    /// The value of `n` bytes from `addr`, when they are in range.
    pub open spec fn value_at(&self, addr: u64, n: nat) -> nat {
        le_value(self.bytes@, addr - self.base, n)
    }

    /// What reading `n` bytes from `addr` yields.
    pub open spec fn read_result(&self, addr: u64, n: nat) -> Result<u64, SimError> {
        if self.in_range(addr, n) {
            Ok(self.value_at(addr, n) as u64)
        } else {
            Err(SimError::Memory { addr })
        }
    }

    pub fn new(base: u64, bytes: Vec<u8>) -> (r: VirtualMemory)
        ensures
            r.base == base,
            r.bytes@ == bytes@,
    {
        VirtualMemory { base, bytes }
    }

    fn check_range(&self, addr: u64, n: u64) -> (r: bool)
        ensures
            r == self.in_range(addr, n as nat),
    {
        addr >= self.base && n <= self.bytes.len() as u64 && addr - self.base <= self.bytes.len()
            as u64 - n
    }

    /// Reads `n` bytes (1, 2, 4 or 8) little-endian from `addr`.
    pub fn read(&self, addr: u64, n: u64) -> (r: Result<u64, SimError>)
        requires
            n == 1 || n == 2 || n == 4 || n == 8,
        ensures
            r == self.read_result(addr, n as nat),
            self.in_range(addr, n as nat) ==> self.value_at(addr, n as nat) < pow256(n as nat),
    {
        if !self.check_range(addr, n) {
            return Err(SimError::Memory { addr });
        }
        let len = self.bytes.len();
        assert(addr - self.base <= len);
        let off = (addr - self.base) as usize;
        let mut k: usize = n as usize;
        let mut v: u64 = 0;
        proof {
            lemma_pow256_values();
        }
        while k > 0
            invariant
                0 <= k <= n,
                n <= 8,
                off + n <= self.bytes@.len(),
                off == addr - self.base,
                len == self.bytes@.len(),
                v as nat == le_value(self.bytes@, off + k, (n - k) as nat),
                pow256(8) == 0x1_0000_0000_0000_0000,
            decreases k,
        {
            k = k - 1;
            proof {
                lemma_le_value_bound(self.bytes@, off + k + 1, (n - k - 1) as nat);
                lemma_pow256_mono((n - k - 1) as nat, 7);
            }
            let b = self.bytes[off + k];
            assert((v as nat) * 256 + b as nat <= 0xffff_ffff_ffff_ffff) by (nonlinear_arith)
                requires
                    (v as nat) < pow256((n - k - 1) as nat),
                    pow256((n - k - 1) as nat) <= pow256(7),
                    256 * pow256(7) == 0x1_0000_0000_0000_0000,
                    b < 256,
            ;
            v = v * 256 + b as u64;
        }
        proof {
            lemma_le_value_bound(self.bytes@, off as int, n as nat);
        }
        Ok(v)
    }

    /// Writes the `n` low bytes (1, 2, 4 or 8) of `val` little-endian at `addr`.
    pub fn write(&mut self, addr: u64, n: u64, val: u64) -> (r: Result<(), SimError>)
        requires
            n == 1 || n == 2 || n == 4 || n == 8,
        ensures
            old(self).in_range(addr, n as nat) ==> r == Ok::<(), SimError>(()),
            !old(self).in_range(addr, n as nat) ==> r == Err::<(), SimError>(
                SimError::Memory { addr },
            ) && *final(self) == *old(self),
            final(self).base == old(self).base,
            final(self).bytes@.len() == old(self).bytes@.len(),
            forall|i: int|
                0 <= i < old(self).bytes@.len() ==> #[trigger] final(self).bytes@[i] == if old(
                    self,
                ).in_range(addr, n as nat) && addr - old(self).base <= i < addr - old(self).base
                    + n {
                    byte_of(val, i - (addr - old(self).base))
                } else {
                    old(self).bytes@[i]
                },
    {
        if !self.check_range(addr, n) {
            return Err(SimError::Memory { addr });
        }
        let len = self.bytes.len();
        assert(addr - self.base <= len);
        let off = (addr - self.base) as usize;
        let mut j: usize = 0;
        while j < n as usize
            invariant
                0 <= j <= n,
                n <= 8,
                off + n <= self.bytes@.len(),
                off == addr - old(self).base,
                len == old(self).bytes@.len(),
                self.base == old(self).base,
                self.bytes@.len() == old(self).bytes@.len(),
                forall|i: int|
                    0 <= i < old(self).bytes@.len() ==> #[trigger] self.bytes@[i] == if off <= i
                        < off + j {
                        byte_of(val, i - off)
                    } else {
                        old(self).bytes@[i]
                    },
            decreases n - j,
        {
            let b = ((val >> (8 * j) as u64) & 0xff) as u8;
            self.bytes.set(off + j, b);
            j = j + 1;
        }
        Ok(())
    }

    /// Fetches the 32-bit word at `addr`, which must be a multiple of 4.
    pub fn fetch_inst(&self, addr: u64) -> (r: Result<u32, SimError>)
        ensures
            addr % 4 == 0 && self.in_range(addr, 4) ==> r == Ok::<u32, SimError>(
                self.value_at(addr, 4) as u32,
            ),
            !(addr % 4 == 0 && self.in_range(addr, 4)) ==> r == Err::<u32, SimError>(
                SimError::Fetch { pc: addr },
            ),
    {
        if addr % 4 != 0 {
            return Err(SimError::Fetch { pc: addr });
        }
        match self.read(addr, 4) {
            Ok(v) => {
                proof {
                    lemma_pow256_values();
                }
                Ok(v as u32)
            },
            Err(_) => Err(SimError::Fetch { pc: addr }),
        }
    }
}

pub proof fn lemma_pow256_values()
    ensures
        pow256(1) == 0x100,
        pow256(2) == 0x1_0000,
        pow256(4) == 0x1_0000_0000,
        pow256(7) == 0x1_0000_0000_0000_00,
        pow256(8) == 0x1_0000_0000_0000_0000,
{
    reveal_with_fuel(pow256, 9);
}

proof fn lemma_pow256_mono(a: nat, b: nat)
    requires
        a <= b,
    ensures
        pow256(a) <= pow256(b),
    decreases b,
{
    if a < b {
        lemma_pow256_mono(a, (b - 1) as nat);
    }
}

} // verus!
