use vstd::prelude::*;

verus! {

/// The bit at absolute bit index `i` of `d`, most significant bit of each byte first.
pub open spec fn bit_at(d: Seq<u8>, i: nat) -> u8 {
    (d[(i / 8) as int] >> ((7 - (i % 8)) as u8)) & 1u8
}

/// The unsigned value of the `n` bits of `d` that start at bit `p`, read MSB-first.
pub open spec fn bits_val(d: Seq<u8>, p: nat, n: nat) -> nat
    decreases n,
{
    if n == 0 {
        0
    } else {
        2 * bits_val(d, p, (n - 1) as nat) + bit_at(d, (p + n - 1) as nat) as nat
    }
}

/// The `n` bytes of `d` that start at bit `p`, each read as eight bits.
pub open spec fn bytes_at(d: Seq<u8>, p: nat, n: nat) -> Seq<u8> {
    Seq::new(n, |i: int| bits_val(d, (p + 8 * i) as nat, 8) as u8)
}

/// Bits of `d` left after bit position `p`.
pub open spec fn remaining(d: Seq<u8>, p: nat) -> int {
    8 * d.len() - p
}

pub open spec fn pow2(n: nat) -> nat
    decreases n,
{
    if n == 0 {
        1
    } else {
        2 * pow2((n - 1) as nat)
    }
}

pub proof fn lemma_bits_val_bound(d: Seq<u8>, p: nat, n: nat)
    ensures
        bits_val(d, p, n) < pow2(n),
    decreases n,
{
    if n > 0 {
        lemma_bits_val_bound(d, p, (n - 1) as nat);
        let i = (p + n - 1) as nat;
        lemma_bit_le_one(d[(i / 8) as int], (7 - (i % 8)) as u8);
    }
}

proof fn lemma_bit_le_one(b: u8, s: u8)
    ensures
        (b >> s) & 1u8 <= 1,
{
    assert((b >> s) & 1u8 <= 1) by (bit_vector);
}

pub proof fn lemma_pow2_mono(a: nat, b: nat)
    requires
        a <= b,
    ensures
        pow2(a) <= pow2(b),
    decreases b,
{
    if a < b {
        lemma_pow2_mono(a, (b - 1) as nat);
    }
}

proof fn lemma_byte_bits(b: u8)
    ensures
        b as u16 == ((b >> 7u8) & 1u8) as u16 * 128 + ((b >> 6u8) & 1u8) as u16 * 64
            + ((b >> 5u8) & 1u8) as u16 * 32 + ((b >> 4u8) & 1u8) as u16 * 16
            + ((b >> 3u8) & 1u8) as u16 * 8 + ((b >> 2u8) & 1u8) as u16 * 4
            + ((b >> 1u8) & 1u8) as u16 * 2 + ((b >> 0u8) & 1u8) as u16,
{
    assert(b as u16 == ((b >> 7u8) & 1u8) as u16 * 128 + ((b >> 6u8) & 1u8) as u16 * 64
        + ((b >> 5u8) & 1u8) as u16 * 32 + ((b >> 4u8) & 1u8) as u16 * 16
        + ((b >> 3u8) & 1u8) as u16 * 8 + ((b >> 2u8) & 1u8) as u16 * 4
        + ((b >> 1u8) & 1u8) as u16 * 2 + ((b >> 0u8) & 1u8) as u16) by (bit_vector);
}

/// Eight bits read at a byte boundary are that byte.
pub proof fn lemma_aligned_byte(d: Seq<u8>, j: nat)
    requires
        j < d.len(),
    ensures
        bits_val(d, 8 * j, 8) == d[j as int],
{
    reveal_with_fuel(bits_val, 9);
    assert forall|k: nat| k < 8 implies (#[trigger] ((8 * j + k) / 8)) == j && (8 * j + k) % 8 == k by {
        assert((8 * j + k) / 8 == j && (8 * j + k) % 8 == k) by (nonlinear_arith)
            requires k < 8;
    }
    lemma_byte_bits(d[j as int]);
}

proof fn lemma_nibble_bits(b: u8)
    ensures
        b >> 4u8 == ((b >> 7u8) & 1u8) * 8 + ((b >> 6u8) & 1u8) * 4 + ((b >> 5u8) & 1u8) * 2 + ((
        b >> 4u8) & 1u8),
        b & 15u8 == ((b >> 3u8) & 1u8) * 8 + ((b >> 2u8) & 1u8) * 4 + ((b >> 1u8) & 1u8) * 2 + ((
        b >> 0u8) & 1u8),
{
    assert(b >> 4u8 == ((b >> 7u8) & 1u8) * 8 + ((b >> 6u8) & 1u8) * 4 + ((b >> 5u8) & 1u8) * 2
        + ((b >> 4u8) & 1u8)) by (bit_vector);
    assert(b & 15u8 == ((b >> 3u8) & 1u8) * 8 + ((b >> 2u8) & 1u8) * 4 + ((b >> 1u8) & 1u8) * 2
        + ((b >> 0u8) & 1u8)) by (bit_vector);
}

/// The two half octets of a byte, read at a byte boundary, are its high and low nibble.
pub proof fn lemma_aligned_nibbles(d: Seq<u8>, j: nat)
    requires
        j < d.len(),
    ensures
        bits_val(d, 8 * j, 4) == d[j as int] >> 4u8,
        bits_val(d, 8 * j + 4, 4) == d[j as int] & 15u8,
{
    reveal_with_fuel(bits_val, 5);
    assert forall|k: nat| k < 8 implies (#[trigger] ((8 * j + k) / 8)) == j && (8 * j + k) % 8 == k by {
        assert((8 * j + k) / 8 == j && (8 * j + k) % 8 == k) by (nonlinear_arith)
            requires k < 8;
    }
    lemma_nibble_bits(d[j as int]);
}

/// Bytes read at a byte boundary are the slice of the input that starts there.
pub proof fn lemma_aligned_bytes(d: Seq<u8>, p: nat, n: nat)
    requires
        p % 8 == 0,
        p + 8 * n <= 8 * d.len(),
    ensures
        bytes_at(d, p, n) == d.subrange((p / 8) as int, (p / 8 + n) as int),
{
    assert forall|i: int| 0 <= i < n implies bytes_at(d, p, n)[i] == d[p / 8 + i] by {
        let j = (p / 8 + i) as nat;
        assert(p + 8 * i == 8 * j);
        lemma_aligned_byte(d, j);
    }
    assert(bytes_at(d, p, n) =~= d.subrange((p / 8) as int, (p / 8 + n) as int));
}

/// Failure of a decode: the bytes ran out, or a value is not one the format knows.
#[derive(Clone, Copy, Debug, PartialEq, Eq, Structural)]
pub enum DecodeError {
    ShortRead,
    UnknownEMMType(u8),
    UnknownESMType(u8),
    /// A value that the payload's type has no meaning for.
    UnknownValue(u8),
    /// A seek to before the start or past the end.
    OutOfRange,
}

/// A saved reader position.
#[derive(Clone, Copy, Debug, PartialEq, Eq, Structural)]
pub struct Bookmark {
    byte: usize,
    bit: usize,
}

impl Bookmark {
    pub closed spec fn pos(&self) -> nat {
        (self.byte * 8 + self.bit) as nat
    }

    pub closed spec fn wf(&self) -> bool {
        self.bit < 8
    }
}

/// A cursor over a byte slice that reads bits most significant first.
/// The position is `byte * 8 + bit`.
pub struct BitReader<'a> {
    data: &'a [u8],
    byte: usize,
    bit: usize,
}

impl<'a> BitReader<'a> {
    pub closed spec fn data(&self) -> Seq<u8> {
        self.data@
    }

    pub closed spec fn pos(&self) -> nat {
        (self.byte * 8 + self.bit) as nat
    }

    pub closed spec fn wf(&self) -> bool {
        &&& self.bit < 8
        &&& self.data@.len() <= usize::MAX
        &&& self.byte <= self.data@.len()
        &&& self.byte == self.data@.len() ==> self.bit == 0
    }

    pub proof fn lemma_wf(&self)
        requires
            self.wf(),
        ensures
            self.pos() <= 8 * self.data().len(),
            self.pos() % 8 == 0 || self.pos() < 8 * self.data().len(),
    {
    }

    /// A reader at the start of `data`.
    pub fn new(data: &'a [u8]) -> (r: Self)
        ensures
            r.wf(),
            r.data() == data@,
            r.pos() == 0,
    {
        let _ = data.len();
        BitReader { data, byte: 0, bit: 0 }
    }

    /// The current position, to come back to with `seek_absolute`.
    pub fn bookmark(&self) -> (r: Bookmark)
        requires
            self.wf(),
        ensures
            r.wf(),
            r.pos() == self.pos(),
    {
        Bookmark { byte: self.byte, bit: self.bit }
    }

    /// True iff no bit is left.
    pub fn end(&self) -> (r: bool)
        requires
            self.wf(),
        ensures
            r == (self.pos() >= 8 * self.data().len()),
    {
        self.byte >= self.data.len()
    }

    /// Moves back (or on) to a position taken from `bookmark`.
    pub fn seek_absolute(&mut self, b: Bookmark)
        requires
            old(self).wf(),
            b.wf(),
            b.pos() <= 8 * old(self).data().len(),
        ensures
            final(self).wf(),
            final(self).data() == old(self).data(),
            final(self).pos() == b.pos(),
    {
        self.byte = b.byte;
        self.bit = b.bit;
    }

    /// Moves by `delta` whole bytes, back where it is negative. Fails with
    /// `OutOfRange`, moving nothing, where that would leave the input.
    pub fn seek_relative(&mut self, delta: isize) -> (r: Result<(), DecodeError>)
        requires
            old(self).wf(),
        ensures
            final(self).wf(),
            final(self).data() == old(self).data(),
            r.is_ok() == (0 <= old(self).pos() + 8 * delta <= 8 * old(self).data().len()),
            r.is_ok() ==> final(self).pos() == old(self).pos() + 8 * delta,
            r.is_err() ==> final(self).pos() == old(self).pos() && r == Err::<(), DecodeError>(
                DecodeError::OutOfRange,
            ),
    {
        if delta < 0 {
            let back: usize = (0 - (delta + 1)) as usize + 1;
            if back > self.byte {
                return Err(DecodeError::OutOfRange);
            }
            self.byte = self.byte - back;
        } else {
            let ahead = delta as usize;
            let left = self.data.len() - self.byte;
            if ahead > left || (ahead == left && self.bit != 0) {
                return Err(DecodeError::OutOfRange);
            }
            self.byte = self.byte + ahead;
        }
        Ok(())
    }

    /// The next eight bits as a byte, without moving.
    pub fn peek_u8(&self) -> (r: Result<u8, DecodeError>)
        requires
            self.wf(),
        ensures
            r is Ok == (remaining(self.data(), self.pos()) >= 8),
            r matches Ok(v) ==> v == bits_val(self.data(), self.pos(), 8),
            r matches Err(e) ==> e == DecodeError::ShortRead,
    {
        let mut ahead = BitReader { data: self.data, byte: self.byte, bit: self.bit };
        ahead.read_u8()
    }

    /// Whether at least `n` bits are left.
    pub fn has_bits(&self, n: usize) -> (r: bool)
        requires
            self.wf(),
        ensures
            r == (remaining(self.data(), self.pos()) >= n),
    {
        let rem_bytes = self.data.len() - self.byte;
        let q = n / 8;
        if rem_bytes < q {
            proof {
                assert(rem_bytes * 8 - self.bit < n) by (nonlinear_arith)
                    requires rem_bytes < q, q == n / 8, n >= 0;
            }
            false
        } else {
            let extra = rem_bytes - q;
            proof {
                assert(rem_bytes * 8 - self.bit - n == extra * 8 - self.bit - n % 8) by (nonlinear_arith)
                    requires extra == rem_bytes - q, q == n / 8, n >= 0;
            }
            if extra >= 2 {
                true
            } else {
                extra * 8 >= self.bit + n % 8
            }
        }
    }

    fn read_bit(&mut self) -> (r: u8)
        requires
            old(self).wf(),
            remaining(old(self).data(), old(self).pos()) >= 1,
        ensures
            final(self).wf(),
            final(self).data() == old(self).data(),
            final(self).pos() == old(self).pos() + 1,
            r == bit_at(old(self).data(), old(self).pos()),
            r <= 1,
    {
        let b = self.data[self.byte];
        let sh = (7 - self.bit) as u8;
        let r = (b >> sh) & 1u8;
        proof {
            let p = self.pos();
            assert(p / 8 == self.byte && p % 8 == self.bit);
            lemma_bit_le_one(b, sh);
        }
        if self.bit == 7 {
            self.bit = 0;
            self.byte = self.byte + 1;
        } else {
            self.bit = self.bit + 1;
        }
        r
    }

    /// Reads `n` bits as an unsigned integer, most significant first.
    /// Fails with `ShortRead`, and moves nothing, when fewer than `n` bits are left.
    pub fn read_bits(&mut self, n: usize) -> (r: Result<u16, DecodeError>)
        requires
            old(self).wf(),
            n <= 16,
        ensures
            final(self).wf(),
            final(self).data() == old(self).data(),
            match r {
                Ok(v) => {
                    &&& remaining(old(self).data(), old(self).pos()) >= n
                    &&& v == bits_val(old(self).data(), old(self).pos(), n as nat)
                    &&& final(self).pos() == old(self).pos() + n
                },
                Err(e) => {
                    &&& remaining(old(self).data(), old(self).pos()) < n
                    &&& e == DecodeError::ShortRead
                    &&& final(self).pos() == old(self).pos()
                },
            },
    {
        if !self.has_bits(n) {
            return Err(DecodeError::ShortRead);
        }
        let ghost d = self.data();
        let ghost p = self.pos();
        let mut v: u32 = 0;
        let mut k: usize = 0;
        while k < n
            invariant
                self.wf(),
                self.data() == d,
                k <= n,
                n <= 16,
                remaining(d, p) >= n,
                self.pos() == p + k,
                v == bits_val(d, p, k as nat),
            decreases n - k,
        {
            proof {
                lemma_bits_val_bound(d, p, k as nat);
                lemma_pow2_mono(k as nat, 16);
                reveal_with_fuel(pow2, 17);
            }
            let b = self.read_bit();
            v = v * 2 + b as u32;
            k = k + 1;
        }
        proof {
            lemma_bits_val_bound(d, p, n as nat);
            lemma_pow2_mono(n as nat, 16);
            reveal_with_fuel(pow2, 17);
        }
        Ok(v as u16)
    }

    /// Reads eight bits as one byte.
    pub fn read_u8(&mut self) -> (r: Result<u8, DecodeError>)
        requires
            old(self).wf(),
        ensures
            final(self).wf(),
            final(self).data() == old(self).data(),
            match r {
                Ok(v) => {
                    &&& remaining(old(self).data(), old(self).pos()) >= 8
                    &&& v == bits_val(old(self).data(), old(self).pos(), 8)
                    &&& final(self).pos() == old(self).pos() + 8
                },
                Err(e) => {
                    &&& remaining(old(self).data(), old(self).pos()) < 8
                    &&& e == DecodeError::ShortRead
                    &&& final(self).pos() == old(self).pos()
                },
            },
    {
        let ghost d = self.data();
        let ghost p = self.pos();
        let v = self.read_bits(8)?;
        proof {
            lemma_bits_val_bound(d, p, 8);
            reveal_with_fuel(pow2, 9);
        }
        Ok(v as u8)
    }

    /// Whether at least `n` whole bytes are left.
    pub fn has_bytes(&self, n: usize) -> (r: bool)
        requires
            self.wf(),
        ensures
            r == (remaining(self.data(), self.pos()) >= 8 * n),
    {
        let rem_bytes = self.data.len() - self.byte;
        if self.bit == 0 {
            rem_bytes >= n
        } else {
            rem_bytes > n
        }
    }

    /// How many whole bytes are left.
    pub fn whole_bytes_left(&self) -> (r: usize)
        requires
            self.wf(),
        ensures
            r == remaining(self.data(), self.pos()) / 8,
    {
        if self.bit == 0 {
            self.data.len() - self.byte
        } else {
            self.data.len() - self.byte - 1
        }
    }

    /// Reads `n` bytes, each as eight bits; any `n` may be asked for.
    /// Fails with `ShortRead`, and moves nothing, when fewer than `8 * n` bits are left.
    pub fn read_bytes(&mut self, n: usize) -> (r: Result<Vec<u8>, DecodeError>)
        requires
            old(self).wf(),
        ensures
            final(self).wf(),
            final(self).data() == old(self).data(),
            match r {
                Ok(v) => {
                    &&& remaining(old(self).data(), old(self).pos()) >= 8 * n
                    &&& v@ == bytes_at(old(self).data(), old(self).pos(), n as nat)
                    &&& old(self).pos() % 8 == 0 ==> v@ == old(self).data().subrange(
                        (old(self).pos() / 8) as int,
                        (old(self).pos() / 8 + n) as int,
                    )
                    &&& final(self).pos() == old(self).pos() + 8 * n
                },
                Err(e) => {
                    &&& remaining(old(self).data(), old(self).pos()) < 8 * n
                    &&& e == DecodeError::ShortRead
                    &&& final(self).pos() == old(self).pos()
                },
            },
    {
        if !self.has_bytes(n) {
            return Err(DecodeError::ShortRead);
        }
        let ghost d = self.data();
        let ghost p = self.pos();
        let mut out: Vec<u8> = Vec::new();
        let mut k: usize = 0;
        while k < n
            invariant
                self.wf(),
                self.data() == d,
                k <= n,
                remaining(d, p) >= 8 * n,
                self.pos() == p + 8 * k,
                out@ == bytes_at(d, p, k as nat),
            decreases n - k,
        {
            let b = match self.read_bits(8) {
                Ok(b) => b,
                Err(e) => return Err(e),
            };
            proof {
                lemma_bits_val_bound(d, (p + 8 * k) as nat, 8);
                reveal_with_fuel(pow2, 9);
            }
            out.push(b as u8);
            k = k + 1;
            proof {
                assert(out@ =~= bytes_at(d, p, k as nat));
            }
        }
        proof {
            if p % 8 == 0 {
                lemma_aligned_bytes(d, p, n as nat);
            }
        }
        Ok(out)
    }

    /// Advances by `n` bits; fails with `ShortRead`, moving nothing, past the end.
    pub fn skip_bits(&mut self, n: usize) -> (r: Result<(), DecodeError>)
        requires
            old(self).wf(),
        ensures
            final(self).wf(),
            final(self).data() == old(self).data(),
            r.is_ok() == (remaining(old(self).data(), old(self).pos()) >= n),
            r.is_ok() ==> final(self).pos() == old(self).pos() + n,
            r.is_err() ==> final(self).pos() == old(self).pos() && r == Err::<(), DecodeError>(DecodeError::ShortRead),
    {
        if !self.has_bits(n) {
            return Err(DecodeError::ShortRead);
        }
        let t = self.bit + n % 8;
        proof {
            assert(self.byte * 8 + self.bit + n == (self.byte + n / 8 + t / 8) * 8 + t % 8) by (nonlinear_arith)
                requires t == self.bit + n % 8, n >= 0;
            let nb = self.byte + n / 8 + t / 8;
            let len = self.data@.len();
            assert(nb <= len) by (nonlinear_arith)
                requires nb * 8 + t % 8 <= len * 8, t % 8 >= 0;
        }
        self.byte = self.byte + n / 8 + t / 8;
        self.bit = t % 8;
        Ok(())
    }
}

} // verus!
