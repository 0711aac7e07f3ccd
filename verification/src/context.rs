//! The shared context: a bank of byte-addressable registers that remote
//! clients read and write at arbitrary offsets.
//!
//! A context is created with a register count and an initial size; every
//! register starts as that many zero bytes.  A `flexible` flag governs
//! out-of-range access: a flexible context grows registers on writes past
//! their end and zero-fills reads past their end, a strict one rejects both
//! with `InvalidOffset`.  An out-of-range register index is always fatal.

use vstd::pervasive::VecAdditionalExecFns;
use vstd::prelude::*;
use vstd::slice::{slice_subrange, slice_to_vec};

use crate::error::Error;

verus! {

/// A sequence of `n` zero bytes.
pub open spec fn zero_bytes(n: nat) -> Seq<u8> {
    Seq::new(n, |i: int| 0u8)
}

/// A register after writing `data` at `offset`: the register is first grown
/// with zero padding to at least `offset + data.len()` bytes, then the bytes
/// of `data` replace the range starting at `offset`.
pub open spec fn spec_write_at(reg: Seq<u8>, offset: int, data: Seq<u8>) -> Seq<u8>
    recommends
        0 <= offset,
{
    let end = offset + data.len();
    let base = if reg.len() < end {
        reg + zero_bytes((end - reg.len()) as nat)
    } else {
        reg
    };
    Seq::new(
        base.len(),
        |i: int|
            if offset <= i < end {
                data[i - offset]
            } else {
                base[i]
            },
    )
}

/// The outcome of writing `data` at `offset` of `register`: the new register
/// bank, or the error the write is rejected with.  A strict bank rejects a
/// write that would extend a register; a flexible one grows it with zero
/// padding first.
pub open spec fn spec_set_bytes(
    regs: Seq<Seq<u8>>,
    flexible: bool,
    register: u32,
    offset: u32,
    data: Seq<u8>,
) -> Result<Seq<Seq<u8>>, Error> {
    if register >= regs.len() {
        Err(Error::InvalidRegister)
    } else if offset + data.len() > usize::MAX {
        Err(Error::Overflow)
    } else {
        let reg = regs[register as int];
        if reg.len() < offset + data.len() && !flexible {
            Err(Error::InvalidOffset)
        } else {
            Ok(regs.update(register as int, spec_write_at(reg, offset as int, data)))
        }
    }
}

/// The outcome of reading `data_size` bytes at `offset` of `register`.
/// `data_size == 0` reads from `offset` to the end of the register.  A
/// flexible bank zero-fills whatever lies past the register's end; a strict
/// one rejects any read that runs past it.
pub open spec fn spec_get_bytes(
    regs: Seq<Seq<u8>>,
    flexible: bool,
    register: u32,
    offset: u32,
    data_size: u32,
) -> Result<Seq<u8>, Error> {
    if register >= regs.len() {
        Err(Error::InvalidRegister)
    } else {
        let reg = regs[register as int];
        if data_size == 0 {
            if offset > reg.len() {
                if flexible {
                    Ok(Seq::<u8>::empty())
                } else {
                    Err(Error::InvalidOffset)
                }
            } else {
                Ok(reg.skip(offset as int))
            }
        } else {
            if offset > reg.len() {
                if flexible {
                    Ok(zero_bytes(data_size as nat))
                } else {
                    Err(Error::InvalidOffset)
                }
            } else if reg.len() >= offset + data_size {
                Ok(reg.subrange(offset as int, offset + data_size))
            } else if flexible {
                Ok(reg.skip(offset as int) + zero_bytes((offset + data_size - reg.len()) as nat))
            } else {
                Err(Error::InvalidOffset)
            }
        }
    }
}

/// A capability exposing a bank of byte-addressable shared registers.
pub trait RpdoContext {
    /// The registers this context exposes, each as the byte sequence it
    /// currently holds.  Unspecified unless the implementation gives it a
    /// meaning.
    open spec fn regs(&self) -> Seq<Seq<u8>> {
        vstd::pervasive::arbitrary()
    }

    /// Whether out-of-range access grows registers and zero-fills reads.
    /// Unspecified unless the implementation gives it a meaning.
    open spec fn flexible(&self) -> bool {
        vstd::pervasive::arbitrary()
    }

    /// Read `data_size` bytes at `offset` of `register`; `data_size == 0`
    /// reads from `offset` to the end of the register.
    fn get_bytes(&self, register: u32, offset: u32, data_size: u32) -> (r: Result<Vec<u8>, Error>)
        ensures
            match spec_get_bytes(self.regs(), self.flexible(), register, offset, data_size) {
                Ok(expected) => r matches Ok(v) && v@ == expected,
                Err(e) => r == Err::<Vec<u8>, Error>(e),
            },
    ;

    /// Write `data` at `offset` of `register`.
    fn set_bytes(&mut self, register: u32, offset: u32, data: &[u8]) -> (r: Result<(), Error>)
        ensures
            final(self).flexible() == old(self).flexible(),
            match spec_set_bytes(old(self).regs(), old(self).flexible(), register, offset, data@) {
                Ok(new_regs) => r == Ok::<(), Error>(()) && final(self).regs() == new_regs,
                Err(e) => r == Err::<(), Error>(e) && final(self).regs() == old(self).regs(),
            },
    ;
}

/// The reference context: an owned array of byte vectors.
pub struct Basic {
    data: Vec<Vec<u8>>,
    register_flexible: bool,
}

/// A vector of `n` zero bytes.
fn zeros_vec(n: usize) -> (v: Vec<u8>)
    ensures
        v@ == zero_bytes(n as nat),
{
    let v = vec![0u8; n];
    proof {
        assert forall|i: int| 0 <= i < n implies v@[i] == 0u8 by {
            assert(cloned(0u8, v@[i]));
        }
        assert(v@ =~= zero_bytes(n as nat));
    }
    v
}

impl Basic {
    /// Create a new register bank: `register_count` registers, each holding
    /// `register_size` zero bytes.
    pub fn new(register_count: usize, register_size: usize, register_flexible: bool) -> (r: Self)
        ensures
            r.regs().len() == register_count,
            forall|i: int|
                0 <= i < register_count ==> r.regs()[i] == zero_bytes(register_size as nat),
            r.flexible() == register_flexible,
    {
        let mut data: Vec<Vec<u8>> = Vec::new();
        let mut k: usize = 0;
        while k < register_count
            invariant
                k <= register_count,
                data@.len() == k,
                forall|i: int| 0 <= i < k ==> data@[i]@ == zero_bytes(register_size as nat),
            decreases register_count - k,
        {
            data.push(zeros_vec(register_size));
            k = k + 1;
        }
        let r = Basic { data, register_flexible };
        proof {
            assert(forall|i: int| 0 <= i < register_count ==> r.regs()[i] == #[trigger] r.data@[i]@);
        }
        r
    }
}

impl RpdoContext for Basic {
    closed spec fn regs(&self) -> Seq<Seq<u8>> {
        self.data@.map_values(|v: Vec<u8>| v@)
    }

    closed spec fn flexible(&self) -> bool {
        self.register_flexible
    }

    fn get_bytes(&self, register: u32, offset: u32, data_size: u32) -> (r: Result<Vec<u8>, Error>) {
        let reg_index = register as usize;
        if reg_index >= self.data.len() {
            return Err(Error::InvalidRegister);
        }
        proof {
            assert(self.regs()[register as int] == self.data@[register as int]@);
        }
        let reg: &Vec<u8> = &self.data[reg_index];
        let offset_usize = offset as usize;
        if data_size == 0 {
            if offset_usize > reg.len() {
                if self.register_flexible {
                    return Ok(Vec::new());
                }
                return Err(Error::InvalidOffset);
            }
            let out = slice_to_vec(slice_subrange(reg.as_slice(), offset_usize, reg.len()));
            proof {
                assert(out@ =~= reg@.skip(offset as int));
            }
            return Ok(out);
        }
        if offset_usize > reg.len() {
            if self.register_flexible {
                return Ok(zeros_vec(data_size as usize));
            }
            return Err(Error::InvalidOffset);
        }
        let size_usize = data_size as usize;
        let avail = reg.len() - offset_usize;
        if avail >= size_usize {
            let out = slice_to_vec(
                slice_subrange(reg.as_slice(), offset_usize, offset_usize + size_usize),
            );
            proof {
                assert(out@ =~= reg@.subrange(offset as int, offset + data_size));
            }
            Ok(out)
        } else if !self.register_flexible {
            Err(Error::InvalidOffset)
        } else {
            let mut out = slice_to_vec(slice_subrange(reg.as_slice(), offset_usize, reg.len()));
            let pad = zeros_vec(size_usize - avail);
            crate::push_bytes(&mut out, pad.as_slice());
            proof {
                assert(out@ =~= reg@.skip(offset as int) + zero_bytes(
                    (offset + data_size - reg@.len()) as nat,
                ));
            }
            Ok(out)
        }
    }

    fn set_bytes(&mut self, register: u32, offset: u32, data: &[u8]) -> (r: Result<(), Error>) {
        let reg_index = register as usize;
        if reg_index >= self.data.len() {
            return Err(Error::InvalidRegister);
        }
        let offset_usize = offset as usize;
        let end = match offset_usize.checked_add(data.len()) {
            Some(end) => end,
            None => {
                return Err(Error::Overflow);
            },
        };
        proof {
            assert(old(self).regs()[register as int] == old(self).data@[register as int]@);
        }
        let reg_len = self.data[reg_index].len();
        if reg_len < end && !self.register_flexible {
            return Err(Error::InvalidOffset);
        }
        let new_len = if reg_len < end {
            end
        } else {
            reg_len
        };
        let ghost target = spec_write_at(self.data@[register as int]@, offset as int, data@);
        proof {
            assert(target.len() == new_len);
        }
        let mut new_reg: Vec<u8> = Vec::new();
        let mut i: usize = 0;
        while i < new_len
            invariant
                i <= new_len,
                new_len == target.len(),
                target == spec_write_at(self.data@[register as int]@, offset as int, data@),
                offset_usize == offset,
                end == offset + data@.len(),
                reg_len == self.data@[register as int]@.len(),
                reg_index == register,
                register < self.data@.len(),
                new_reg@ == target.take(i as int),
            decreases new_len - i,
        {
            let b: u8 = if offset_usize <= i && i < end {
                data[i - offset_usize]
            } else if i < reg_len {
                self.data[reg_index][i]
            } else {
                0u8
            };
            proof {
                assert(b == target[i as int]);
                assert(target.take(i + 1) =~= target.take(i as int).push(target[i as int]));
            }
            new_reg.push(b);
            i = i + 1;
        }
        proof {
            assert(target.take(target.len() as int) =~= target);
        }
        self.data.set(reg_index, new_reg);
        proof {
            assert(self.regs() =~= old(self).regs().update(
                register as int,
                spec_write_at(old(self).regs()[register as int], offset as int, data@),
            ));
        }
        Ok(())
    }
}

/// Law: after a successful write, reading the written range back yields
/// exactly the written bytes, for every non-empty `data`.  (A read of size
/// zero means "to the end of the register", so the empty write is excluded.)
pub proof fn lemma_set_then_get(
    regs: Seq<Seq<u8>>,
    flexible: bool,
    register: u32,
    offset: u32,
    data: Seq<u8>,
)
    requires
        0 < data.len() <= u32::MAX,
        spec_set_bytes(regs, flexible, register, offset, data) is Ok,
    ensures
        spec_get_bytes(
            spec_set_bytes(regs, flexible, register, offset, data).unwrap(),
            flexible,
            register,
            offset,
            data.len() as u32,
        ) == Ok::<Seq<u8>, Error>(data),
{
    let new_regs = spec_set_bytes(regs, flexible, register, offset, data).unwrap();
    let written = spec_write_at(regs[register as int], offset as int, data);
    assert(new_regs[register as int] == written);
    assert(written.len() >= offset + data.len());
    assert(written.subrange(offset as int, offset + data.len()) =~= data);
}

/// Law: with a flexible context, a write to an in-range register always
/// succeeds and grows the register to at least `offset + data.len()` bytes.
pub proof fn lemma_flexible_set_succeeds(
    regs: Seq<Seq<u8>>,
    register: u32,
    offset: u32,
    data: Seq<u8>,
)
    requires
        register < regs.len(),
        offset + data.len() <= usize::MAX,
    ensures
        spec_set_bytes(regs, true, register, offset, data) matches Ok(new_regs)
            && new_regs[register as int].len() >= offset + data.len(),
{
}

/// Law: with a strict context, a write that would extend an in-range register
/// beyond its current size fails with `InvalidOffset`.
pub proof fn lemma_strict_set_out_of_range(
    regs: Seq<Seq<u8>>,
    register: u32,
    offset: u32,
    data: Seq<u8>,
)
    requires
        register < regs.len(),
        offset + data.len() <= usize::MAX,
        offset + data.len() > regs[register as int].len(),
    ensures
        spec_set_bytes(regs, false, register, offset, data) == Err::<Seq<Seq<u8>>, Error>(
            Error::InvalidOffset,
        ),
{
}

/// Law: with a strict context, a read that would run past the end of an
/// in-range register fails with `InvalidOffset`.
pub proof fn lemma_strict_get_out_of_range(
    regs: Seq<Seq<u8>>,
    register: u32,
    offset: u32,
    data_size: u32,
)
    requires
        register < regs.len(),
        data_size > 0,
        offset + data_size > regs[register as int].len(),
    ensures
        spec_get_bytes(regs, false, register, offset, data_size) == Err::<Seq<u8>, Error>(
            Error::InvalidOffset,
        ),
{
}

} // verus!
