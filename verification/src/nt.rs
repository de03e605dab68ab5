//! Host-kernel data structures the hypervisor fills in itself.
//!
//! The host kernel's bitmap routines operate on a caller-owned header and
//! word buffer; the control-structure setup uses one as the MSR bitmap
//! region, cleared so that no register access is intercepted. The layout
//! and the operations are reproduced here as verified code over an owned
//! word buffer.

use vstd::prelude::*;

verus! {

/// The counted UTF-16 string descriptor the kernel's name-based export
/// lookup takes: a routine address is resolved by handing the kernel the
/// routine's name in this shape. Building it — widening the ASCII name,
/// appending the terminator, and computing both byte counts — is plain
/// computation and is done here, verified; only the lookup itself stays
/// with the kernel.
pub struct UnicodeString {
    /// Length in bytes, excluding the terminator.
    pub length: u16,
    /// Length in bytes, including the terminator.
    pub maximum_length: u16,
    /// The UTF-16 code units, terminated for the C-style consumer.
    pub buffer: Vec<u16>,
}

impl UnicodeString {
    /// The byte counts describe exactly the terminated buffer.
    pub open spec fn wf(self) -> bool {
        &&& self.buffer@.len() >= 1
        &&& self.buffer@[self.buffer@.len() - 1] == 0u16
        &&& self.length == 2 * (self.buffer@.len() - 1)
        &&& self.maximum_length == 2 * self.buffer@.len()
    }

    /// Builds the descriptor for an ASCII routine name; each code unit
    /// is the corresponding byte widened.
    pub fn from_ascii(name: &Vec<u8>) -> (r: UnicodeString)
        requires
            name@.len() <= 32766,
            forall|i: int| 0 <= i < name@.len() ==> name@[i] < 0x80,
        ensures
            r.wf(),
            r.buffer@.len() == name@.len() + 1,
            forall|i: int| 0 <= i < name@.len() ==> r.buffer@[i] == name@[i] as u16,
    {
        let n = name.len();
        let mut buffer: Vec<u16> = Vec::new();
        let mut i: usize = 0;
        while i < n
            invariant
                i <= n,
                n == name@.len(),
                buffer@.len() == i,
                forall|j: int| 0 <= j < i ==> buffer@[j] == name@[j] as u16,
            decreases n - i,
        {
            buffer.push(name[i] as u16);
            i = i + 1;
        }
        buffer.push(0);
        let length = (2 * n) as u16;
        let maximum_length = (2 * n + 2) as u16;
        UnicodeString { length, maximum_length, buffer }
    }
}

/// A bitmap header: the number of valid bits and the word buffer backing
/// them. Bit `i` lives in word `i / 32` at position `i % 32`.
#[allow(non_camel_case_types)]
pub struct RTL_BITMAP {
    pub size_of_bit_map: u32,
    pub buffer: Vec<u32>,
}

impl RTL_BITMAP {
    /// The buffer holds exactly the words its bit count needs.
    pub open spec fn wf(self) -> bool {
        self.buffer@.len() == (self.size_of_bit_map + 31) / 32
    }

    /// Whether bit `i` is set.
    pub open spec fn bit_is_set(self, i: int) -> bool
        recommends
            0 <= i < self.size_of_bit_map,
    {
        (self.buffer@[i / 32] >> ((i % 32) as u32)) & 1u32 == 1u32
    }

    /// Builds a header over a fresh buffer sized for `number_of_bits`
    /// bits, all clear.
    pub fn initialize(number_of_bits: u32) -> (bm: RTL_BITMAP)
        ensures
            bm.wf(),
            bm.size_of_bit_map == number_of_bits,
            forall|i: int| 0 <= i < number_of_bits ==> !bm.bit_is_set(i),
    {
        let words = if number_of_bits % 32 == 0 {
            (number_of_bits / 32) as usize
        } else {
            (number_of_bits / 32 + 1) as usize
        };
        proof {
            assert(words == (number_of_bits as int + 31) / 32) by (nonlinear_arith)
                requires
                    words == if number_of_bits as int % 32 == 0 {
                        number_of_bits as int / 32
                    } else {
                        number_of_bits as int / 32 + 1
                    },
            ;
        }
        let mut buffer: Vec<u32> = Vec::new();
        let mut k: usize = 0;
        while k < words
            invariant
                k <= words,
                buffer@.len() == k,
                forall|j: int| 0 <= j < k ==> buffer@[j] == 0u32,
            decreases words - k,
        {
            buffer.push(0);
            k = k + 1;
        }
        let bm = RTL_BITMAP { size_of_bit_map: number_of_bits, buffer };
        proof {
            assert(forall|b: u32| b < 32 ==> (0u32 >> b) & 1u32 == 0u32) by (bit_vector);
            let wlen = bm.buffer@.len() as int;
            assert(forall|i: int|
                0 <= i < number_of_bits ==> 0 <= #[trigger] (i / 32) < wlen && 0 <= i % 32 < 32)
                by (nonlinear_arith)
                requires
                    wlen == (number_of_bits as int + 31) / 32,
            ;
        }
        bm
    }

    /// Clears every bit, leaving the size untouched.
    pub fn clear_all_bits(&mut self)
        requires
            old(self).wf(),
        ensures
            final(self).wf(),
            final(self).size_of_bit_map == old(self).size_of_bit_map,
            forall|i: int| 0 <= i < final(self).size_of_bit_map ==> !final(self).bit_is_set(i),
    {
        let words = self.buffer.len();
        let mut k: usize = 0;
        while k < words
            invariant
                k <= words,
                self.buffer@.len() == words,
                self.size_of_bit_map == old(self).size_of_bit_map,
                words == old(self).buffer@.len(),
                forall|j: int| 0 <= j < k ==> self.buffer@[j] == 0u32,
            decreases words - k,
        {
            self.buffer[k] = 0;
            k = k + 1;
        }
        proof {
            assert(forall|b: u32| b < 32 ==> (0u32 >> b) & 1u32 == 0u32) by (bit_vector);
            let wlen = self.buffer@.len() as int;
            let size = self.size_of_bit_map as int;
            assert(forall|i: int|
                0 <= i < size ==> 0 <= #[trigger] (i / 32) < wlen && 0 <= i % 32 < 32)
                by (nonlinear_arith)
                requires
                    wlen == (size + 31) / 32,
            ;
        }
    }

    /// Sets bit `index`, leaving every other bit as it was.
    pub fn set_bit(&mut self, index: u32)
        requires
            old(self).wf(),
            index < old(self).size_of_bit_map,
        ensures
            final(self).wf(),
            final(self).size_of_bit_map == old(self).size_of_bit_map,
            final(self).bit_is_set(index as int),
            forall|j: int|
                0 <= j < old(self).size_of_bit_map && j != index ==> final(self).bit_is_set(j)
                    == old(self).bit_is_set(j),
    {
        let ghost size = old(self).size_of_bit_map;
        proof {
            assert(index as int / 32 < (size as int + 31) / 32 && 0 <= index as int % 32 < 32
                && index as int / 32 == index / 32 && index as int % 32 == (index % 32))
                by (nonlinear_arith)
                requires
                    index < size,
            ;
        }
        let word = (index / 32) as usize;
        let bit = index % 32;
        let w = self.buffer[word];
        self.buffer[word] = w | (1u32 << bit);
        proof {
            assert(((w | (1u32 << bit)) >> bit) & 1u32 == 1u32) by (bit_vector)
                requires
                    bit < 32,
            ;
            assert(forall|b: u32|
                b < 32 && b != bit ==> ((w | (1u32 << bit)) >> b) & 1u32 == (w >> b) & 1u32)
                by (bit_vector)
                requires
                    bit < 32,
            ;
            assert(forall|j: int|
                0 <= j < size && j != index ==> (0 <= #[trigger] (j / 32) < (size as int + 31)
                    / 32 && 0 <= j % 32 < 32 && (j / 32 == index as int / 32 ==> j % 32 != index
                    as int % 32))) by (nonlinear_arith)
                requires
                    0 <= index < size,
            ;
        }
    }

    /// Reads bit `index`.
    pub fn test_bit(&self, index: u32) -> (r: bool)
        requires
            self.wf(),
            index < self.size_of_bit_map,
        ensures
            r == self.bit_is_set(index as int),
    {
        proof {
            assert(index as int / 32 < (self.size_of_bit_map as int + 31) / 32 && index as int
                / 32 == index / 32 && index as int % 32 == (index % 32)) by (nonlinear_arith)
                requires
                    index < self.size_of_bit_map,
            ;
        }
        let word = (index / 32) as usize;
        let bit = index % 32;
        ((self.buffer[word] >> bit) & 1) == 1
    }
}

} // verus!
