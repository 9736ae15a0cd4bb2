//! Machine state snapshots in the BESS layout: the memory buffers first,
//! then a CORE block with the registers, an END block, and a footer that
//! points at the first block.

use vstd::prelude::*;
use crate::cpu::{Cpu, Registers, pair, flags_byte};
use crate::data::{le_bytes, le_value, read_u8, read_u16, read_u32, write_u8, write_u16, write_u32};
use crate::gb::GameBoy;
use crate::mmu::{Mmu, is_plain};

verus! {

/// "BESS" read as a little-endian u32.
pub const BESS_MAGIC: u32 = 0x53534542;

/// The size of the CORE block body.
pub const CORE_SIZE: u32 = 208;

/// A copy of one memory area and where its bytes sit in the file.
pub struct BessBuffer {
    pub size: u32,
    pub offset: u32,
    pub buffer: Vec<u8>,
}

impl BessBuffer {
    pub fn new(size: u32, offset: u32, buffer: Vec<u8>) -> (r: Self)
        ensures
            r.size == size && r.offset == offset && r.buffer == buffer,
    {
        BessBuffer { size, offset, buffer }
    }

    /// Fills the buffer with `data`, its size following.
    fn fill_buffer(&mut self, data: Vec<u8>)
        requires
            data@.len() < 0x10000,
        ensures
            final(self).buffer == data,
            final(self).size == data@.len(),
            final(self).offset == old(self).offset,
    {
        self.size = data.len() as u32;
        self.buffer = data;
    }
}

/// A block header: a four-byte name and the body size.
pub struct BessBlockHeader {
    pub magic: [u8; 4],
    pub size: u32,
}

impl BessBlockHeader {
    pub fn new(magic: [u8; 4], size: u32) -> (r: Self)
        ensures
            r.magic == magic && r.size == size,
    {
        BessBlockHeader { magic, size }
    }

    /// Reads a header at `*pos`: four name bytes and a little-endian size.
    pub fn from_data(data: &[u8], pos: &mut usize) -> (r: Result<Self, StateError>)
        requires
            *old(pos) <= data@.len(),
        ensures
            r is Ok <==> *old(pos) + 8 <= data@.len(),
            r is Ok ==> *final(pos) == *old(pos) + 8 && r->Ok_0.magic@ == data@.subrange(*old(pos) as int, *old(pos) + 4)
                && r->Ok_0.size == le_value(data@.subrange(*old(pos) + 4, *old(pos) + 8)),
            r is Err ==> r == Err::<Self, StateError>(StateError::Truncated),
    {
        if data.len() - *pos < 8 {
            return Err(StateError::Truncated);
        }
        let p = *pos;
        let magic = [data[p], data[p + 1], data[p + 2], data[p + 3]];
        *pos = p + 4;
        let size = read_long(data, pos)?;
        assert(magic@ =~= data@.subrange(p as int, p + 4));
        Ok(BessBlockHeader { magic, size })
    }

    pub open spec fn is_end_spec(&self) -> bool {
        self.magic@ == seq![0x45u8, 0x4eu8, 0x44u8, 0x20u8]
    }

    pub fn is_end(&self) -> (r: bool)
        ensures
            r == self.is_end_spec(),
    {
        let r = self.magic[0] == 0x45u8 && self.magic[1] == 0x4eu8 && self.magic[2] == 0x44u8 && self.magic[3] == 0x20u8;
        assert(r == (self.magic@ =~= seq![0x45u8, 0x4eu8, 0x44u8, 0x20u8]));
        r
    }
}

/// The last eight bytes: where the first block starts, and the magic.
pub struct BessFooter {
    pub start_offset: u32,
    pub magic: u32,
}

/// Why a snapshot was refused.
#[derive(Clone, Copy, PartialEq, Eq, Structural, Debug)]
pub enum StateError {
    /// The footer does not end in "BESS".
    InvalidMagic,
    /// The data ends inside a block, a buffer or the footer.
    Truncated,
    /// No CORE block precedes the END block.
    MissingCore,
    /// A memory buffer does not have the size of its area.
    InvalidSize,
    /// The snapshot was taken with another cartridge.
    TitleMismatch,
}

impl BessFooter {
    pub fn new(start_offset: u32, magic: u32) -> (r: Self)
        ensures
            r.start_offset == start_offset && r.magic == magic,
    {
        BessFooter { start_offset, magic }
    }

    pub fn verify(&self) -> (r: Result<(), StateError>)
        ensures
            r is Ok <==> self.magic == BESS_MAGIC,
            r is Err ==> r == Err::<(), StateError>(StateError::InvalidMagic),
    {
        if self.magic != BESS_MAGIC {
            return Err(StateError::InvalidMagic);
        }
        Ok(())
    }
}

/// The registers and memory areas of a machine.
pub struct BessCore {
    pub pc: u16,
    pub af: u16,
    pub bc: u16,
    pub de: u16,
    pub hl: u16,
    pub sp: u16,
    pub ime: bool,
    pub ie: u8,
    /// 0 running, 1 halted, 2 stopped.
    pub execution_mode: u8,
    /// The I/O registers 0xff00 to 0xff7f.
    pub io_registers: Vec<u8>,
    pub ram: BessBuffer,
    pub vram: BessBuffer,
    pub mbc_ram: BessBuffer,
    pub oam: BessBuffer,
    pub hram: BessBuffer,
}

/// The buffers of `core` hold, byte for byte, the plain memories that
/// `mmu` shows.
pub open spec fn buffers_match(core: BessCore, mmu: Mmu) -> bool {
    &&& core.ram.buffer@.len() == 0x2000
    &&& core.vram.buffer@.len() == 0x2000
    &&& core.mbc_ram.buffer@.len() == 0x2000
    &&& core.oam.buffer@.len() == 0xa0
    &&& core.hram.buffer@.len() == 0x7f
    &&& forall|i: int| 0 <= i < 0x2000 ==> #[trigger] core.ram.buffer@[i] == mmu.read_spec((0xc000 + i) as u16)
    &&& forall|i: int| 0 <= i < 0x2000 ==> #[trigger] core.vram.buffer@[i] == mmu.read_spec((0x8000 + i) as u16)
    &&& forall|i: int| 0 <= i < 0x2000 ==> #[trigger] core.mbc_ram.buffer@[i] == mmu.read_spec((0xa000 + i) as u16)
    &&& forall|i: int| 0 <= i < 0xa0 ==> #[trigger] core.oam.buffer@[i] == mmu.read_spec((0xfe00 + i) as u16)
    &&& forall|i: int| 0 <= i < 0x7f ==> #[trigger] core.hram.buffer@[i] == mmu.read_spec((0xff80 + i) as u16)
}

/// The registers of `core` are those of `cpu`.
pub open spec fn registers_match(core: BessCore, cpu: Cpu) -> bool {
    &&& core.pc == cpu.regs.pc
    &&& core.sp == cpu.regs.sp
    &&& core.af & 0xfff0 == cpu.af_spec()
    &&& core.bc == cpu.bc_spec()
    &&& core.de == cpu.de_spec()
    &&& core.hl == cpu.hl_spec()
    &&& core.ime == cpu.ime
    &&& core.ie == cpu.mmu.ie
    &&& core.execution_mode == if cpu.stopped { 2u8 } else if cpu.halted { 1u8 } else { 0u8 }
}

impl BessCore {
    /// The buffer sizes are those of this machine's memories.
    pub open spec fn valid(&self) -> bool {
        &&& self.ram.buffer@.len() == 0x2000
        &&& self.vram.buffer@.len() == 0x2000
        &&& self.mbc_ram.buffer@.len() == 0x2000
        &&& self.oam.buffer@.len() == 0xa0
        &&& self.hram.buffer@.len() == 0x7f
        &&& self.io_registers@.len() == 128
        &&& self.execution_mode <= 2
    }

    pub fn verify(&self) -> (r: Result<(), StateError>)
        ensures
            r is Ok <==> self.valid(),
            r is Err ==> r == Err::<(), StateError>(StateError::InvalidSize),
    {
        if self.ram.buffer.len() != 0x2000 || self.vram.buffer.len() != 0x2000 || self.mbc_ram.buffer.len() != 0x2000
            || self.oam.buffer.len() != 0xa0 || self.hram.buffer.len() != 0x7f || self.io_registers.len() != 128
            || self.execution_mode > 2 {
            return Err(StateError::InvalidSize);
        }
        Ok(())
    }

    /// Takes the registers and memories of `gb`.
    pub fn from_gb(gb: &GameBoy) -> (r: Self)
        requires
            gb.wf(),
        ensures
            r.valid(),
            registers_match(r, gb.cpu),
            buffers_match(r, gb.cpu.mmu),
            forall|i: int| 0 <= i < 128 ==> #[trigger] r.io_registers@[i] == gb.cpu.mmu.read_spec((0xff00 + i) as u16),
    {
        let cpu = &gb.cpu;
        let mmu = &cpu.mmu;
        let execution_mode: u8 = if cpu.stopped { 2 } else if cpu.halted { 1 } else { 0 };
        let mut core = BessCore {
            pc: cpu.regs.pc,
            af: cpu.af(),
            bc: cpu.bc(),
            de: cpu.de(),
            hl: cpu.hl(),
            sp: cpu.regs.sp,
            ime: cpu.ime,
            ie: mmu.ie,
            execution_mode,
            io_registers: mmu.read_many(0xff00, 128),
            ram: BessBuffer::new(0, 0, Vec::new()),
            vram: BessBuffer::new(0, 0, Vec::new()),
            mbc_ram: BessBuffer::new(0, 0, Vec::new()),
            oam: BessBuffer::new(0, 0, Vec::new()),
            hram: BessBuffer::new(0, 0, Vec::new()),
        };
        core.ram.fill_buffer(mmu.read_many(0xc000, 0x2000));
        core.vram.fill_buffer(mmu.read_many(0x8000, 0x2000));
        core.mbc_ram.fill_buffer(mmu.read_many(0xa000, 0x2000));
        core.oam.fill_buffer(mmu.read_many(0xfe00, 0xa0));
        core.hram.fill_buffer(mmu.read_many(0xff80, 0x7f));
        proof {
            lemma_af_masked(*cpu);
        }
        core
    }

    /// Applies the snapshot to `gb`: the registers, the I/O registers
    /// (without their write side effects) and the memories. Nothing changes
    /// when the snapshot is not valid.
    pub fn to_gb(&self, gb: &mut GameBoy) -> (r: Result<(), StateError>)
        requires
            old(gb).wf(),
        ensures
            final(gb).wf(),
            r is Ok <==> self.valid(),
            r is Err ==> *final(gb) == *old(gb),
            r is Ok ==> registers_match(*self, final(gb).cpu) && buffers_match(*self, final(gb).cpu.mmu),
    {
        self.verify()?;
        let cpu = &mut gb.cpu;
        cpu.set_af(self.af);
        cpu.set_bc(self.bc);
        cpu.set_de(self.de);
        cpu.set_hl(self.hl);
        cpu.regs.pc = self.pc;
        cpu.regs.sp = self.sp;
        cpu.ime = self.ime;
        cpu.halted = self.execution_mode == 1;
        cpu.stopped = self.execution_mode == 2;
        cpu.mmu.ie = self.ie;
        proof {
            lemma_pairs_restored(self.af, self.bc, self.de, self.hl, *cpu);
        }
        cpu.mmu.write_many_unsafe(0xff00, self.io_registers.as_slice());
        cpu.mmu.write_many(0xc000, self.ram.buffer.as_slice());
        let ghost m1 = cpu.mmu;
        cpu.mmu.write_many(0x8000, self.vram.buffer.as_slice());
        let ghost m2 = cpu.mmu;
        cpu.mmu.write_many(0xa000, self.mbc_ram.buffer.as_slice());
        let ghost m3 = cpu.mmu;
        cpu.mmu.write_many(0xfe00, self.oam.buffer.as_slice());
        let ghost m4 = cpu.mmu;
        cpu.mmu.write_many(0xff80, self.hram.buffer.as_slice());
        proof {
            let m5 = cpu.mmu;
            assert forall|i: int| 0 <= i < 0x2000 implies #[trigger] self.ram.buffer@[i] == m5.read_spec((0xc000 + i) as u16) by {
                assert(m1.read_spec((0xc000 + i) as u16) == self.ram.buffer@[i]);
                assert(is_plain((0xc000 + i) as u16 as int));
            }
            assert forall|i: int| 0 <= i < 0x2000 implies #[trigger] self.vram.buffer@[i] == m5.read_spec((0x8000 + i) as u16) by {
                assert(m2.read_spec((0x8000 + i) as u16) == self.vram.buffer@[i]);
                assert(is_plain((0x8000 + i) as u16 as int));
            }
            assert forall|i: int| 0 <= i < 0x2000 implies #[trigger] self.mbc_ram.buffer@[i] == m5.read_spec((0xa000 + i) as u16) by {
                assert(m3.read_spec((0xa000 + i) as u16) == self.mbc_ram.buffer@[i]);
                assert(is_plain((0xa000 + i) as u16 as int));
            }
            assert forall|i: int| 0 <= i < 0xa0 implies #[trigger] self.oam.buffer@[i] == m5.read_spec((0xfe00 + i) as u16) by {
                assert(m4.read_spec((0xfe00 + i) as u16) == self.oam.buffer@[i]);
                assert(is_plain((0xfe00 + i) as u16 as int));
            }
        }
        Ok(())
    }
}

proof fn lemma_af_masked(cpu: Cpu)
    ensures
        cpu.af_spec() & 0xfff0 == cpu.af_spec(),
{
    let f = flags_byte(cpu.flags);
    crate::cpu::lemma_flags_byte_round_trip(cpu.flags);
    crate::cpu::lemma_flags_round_trip(f);
    let a = cpu.regs.a;
    assert(pair(a, f) & 0xfff0 == pair(a, f)) by (bit_vector)
        requires
            f & 0xf0 == f,
    ;
}

proof fn lemma_pairs_restored(af: u16, bc: u16, de: u16, hl: u16, cpu: Cpu)
    requires
        cpu.regs.a == (af / 256) as u8,
        cpu.flags == crate::cpu::flags_of((af % 256) as u8),
        cpu.regs.b == (bc / 256) as u8 && cpu.regs.c == (bc % 256) as u8,
        cpu.regs.d == (de / 256) as u8 && cpu.regs.e == (de % 256) as u8,
        cpu.regs.h == (hl / 256) as u8 && cpu.regs.l == (hl % 256) as u8,
    ensures
        cpu.bc_spec() == bc && cpu.de_spec() == de && cpu.hl_spec() == hl,
        cpu.af_spec() == af & 0xfff0,
{
    crate::cpu::lemma_pair_round_trip(af);
    crate::cpu::lemma_pair_round_trip(bc);
    crate::cpu::lemma_pair_round_trip(de);
    crate::cpu::lemma_pair_round_trip(hl);
}

/// A snapshot taken of one machine and applied to another gives the second
/// the first one's registers (F with its low nibble, which is always 0)
/// and the same bytes in every plain memory.
pub proof fn lemma_state_restore(a: GameBoy, core: BessCore, b: GameBoy)
    requires
        registers_match(core, a.cpu),
        buffers_match(core, a.cpu.mmu),
        registers_match(core, b.cpu),
        buffers_match(core, b.cpu.mmu),
    ensures
        b.cpu.regs.pc == a.cpu.regs.pc,
        b.cpu.regs.sp == a.cpu.regs.sp,
        b.cpu.af_spec() == a.cpu.af_spec(),
        b.cpu.bc_spec() == a.cpu.bc_spec(),
        b.cpu.de_spec() == a.cpu.de_spec(),
        b.cpu.hl_spec() == a.cpu.hl_spec(),
        b.cpu.ime == a.cpu.ime,
        b.cpu.halted == a.cpu.halted || b.cpu.stopped,
        b.cpu.mmu.ie == a.cpu.mmu.ie,
        forall|addr: u16| is_plain(addr as int) ==> #[trigger] b.cpu.mmu.read_spec(addr) == a.cpu.mmu.read_spec(addr),
{
    assert forall|addr: u16| is_plain(addr as int) implies #[trigger] b.cpu.mmu.read_spec(addr)
        == a.cpu.mmu.read_spec(addr) by {
        if 0xc000 <= addr < 0xe000 {
            assert(core.ram.buffer@[addr - 0xc000] == a.cpu.mmu.read_spec(addr));
        } else if 0x8000 <= addr < 0xa000 {
            assert(core.vram.buffer@[addr - 0x8000] == a.cpu.mmu.read_spec(addr));
        } else if 0xa000 <= addr < 0xc000 {
            assert(core.mbc_ram.buffer@[addr - 0xa000] == a.cpu.mmu.read_spec(addr));
        } else if 0xfe00 <= addr < 0xfea0 {
            assert(core.oam.buffer@[addr - 0xfe00] == a.cpu.mmu.read_spec(addr));
        } else {
            assert(core.hram.buffer@[addr - 0xff80] == a.cpu.mmu.read_spec(addr));
        }
    }
}


/// The total size of the memory buffers at the start of a snapshot.
pub const BUFFERS_SIZE: u32 = 0x611f;

/// The size of the NAME block body: the emulator's name.
pub const NAME_SIZE: u32 = 9;

/// The size of the INFO block body: cartridge title and checksum.
pub const INFO_SIZE: u32 = 18;

/// Where each block of a snapshot written here starts, and its length.
pub const NAME_AT: usize = 0x611f;
pub const INFO_AT: usize = 0x6130;
pub const CORE_AT: usize = 0x614a;
pub const MBC_AT: usize = 0x6222;
pub const END_AT: usize = 0x622a;
pub const SNAPSHOT_SIZE: usize = 0x623a;

/// The low byte of `v`.
pub open spec fn lo(v: int) -> u8 {
    (v % 256) as u8
}

proof fn lemma_le_value2(a: u8, b: u8)
    ensures
        le_value(seq![a, b]) == a + 256 * b,
{
    assert(seq![a, b].drop_first() =~= seq![b]);
    assert(seq![b].drop_first() =~= Seq::<u8>::empty());
    reveal_with_fuel(le_value, 3);
}

proof fn lemma_le_value4(a: u8, b: u8, c: u8, d: u8)
    ensures
        le_value(seq![a, b, c, d]) == a + 256 * (b + 256 * (c + 256 * d)),
{
    assert(seq![a, b, c, d].drop_first() =~= seq![b, c, d]);
    assert(seq![b, c, d].drop_first() =~= seq![c, d]);
    lemma_le_value2(c, d);
    reveal_with_fuel(le_value, 3);
}

/// A 16-bit value as two little-endian bytes.
pub open spec fn le2(v: u16) -> Seq<u8> {
    seq![lo(v as int), lo(v as int / 256)]
}

/// A 32-bit value as four little-endian bytes.
pub open spec fn le4(v: u32) -> Seq<u8> {
    seq![lo(v as int), lo(v as int / 256), lo(v as int / 65536), lo(v as int / 16777216)]
}

proof fn lemma_le2(v: u16)
    ensures
        le_bytes(v as nat, 2) == le2(v),
        le_value(le2(v)) == v,
{
    reveal_with_fuel(le_bytes, 3);
    assert(le_bytes(v as nat, 2) =~= le2(v));
    lemma_le_value2(lo(v as int), lo(v as int / 256));
}

proof fn lemma_le4(v: u32)
    ensures
        le_bytes(v as nat, 4) == le4(v),
        le_value(le4(v)) == v,
{
    reveal_with_fuel(le_bytes, 5);
    assert(v as nat / 256 / 256 == v as nat / 65536) by (nonlinear_arith);
    assert(v as nat / 256 / 256 / 256 == v as nat / 16777216) by (nonlinear_arith);
    assert(le_bytes(v as nat, 4) =~= le4(v));
    lemma_le_value4(lo(v as int), lo(v as int / 256), lo(v as int / 65536), lo(v as int / 16777216));
    assert(v / 16777216 < 256) by (nonlinear_arith)
        requires
            v < 0x1_0000_0000,
    ;
    assert(v == lo(v as int) + 256 * (lo(v as int / 256) + 256 * (lo(v as int / 65536) + 256 * lo(v as int / 16777216))))
        by (nonlinear_arith)
        requires
            lo(v as int) == v % 256,
            lo(v as int / 256) == (v / 256) % 256,
            lo(v as int / 65536) == (v / 65536) % 256,
            lo(v as int / 16777216) == v / 16777216,
    ;
}

pub open spec fn name_block() -> Seq<u8> {
    seq![
        0x4eu8, 0x41u8, 0x4du8, 0x45u8, 9u8, 0u8, 0u8, 0u8,
        0x62u8, 0x6fu8, 0x79u8, 0x74u8, 0x61u8, 0x63u8, 0x65u8, 0x61u8, 0x6eu8,
    ]
}

pub open spec fn info_block(info: BessInfo) -> Seq<u8> {
    seq![0x49u8, 0x4eu8, 0x46u8, 0x4fu8, 18u8, 0u8, 0u8, 0u8] + info.title@ + info.checksum@
}

/// The bytes of the CORE block up to the I/O registers.
pub open spec fn core_head(c: BessCore) -> Seq<u8> {
    seq![
        0x43u8, 0x4fu8, 0x52u8, 0x45u8, 208u8, 0u8, 0u8, 0u8,
        1u8, 0u8, 1u8, 0u8, 0x47u8, 0x44u8, 0x20u8, 0x20u8,
        lo(c.pc as int), lo(c.pc as int / 256), lo(c.af as int), lo(c.af as int / 256),
        lo(c.bc as int), lo(c.bc as int / 256), lo(c.de as int), lo(c.de as int / 256),
        lo(c.hl as int), lo(c.hl as int / 256), lo(c.sp as int), lo(c.sp as int / 256),
        if c.ime { 1u8 } else { 0u8 }, c.ie, c.execution_mode, 0u8,
    ]
}

/// The size and offset entries of the seven buffers, the two palette
/// buffers of the colour model being empty.
pub open spec fn entries() -> Seq<u8> {
    seq![
        0x00u8, 0x20u8, 0u8, 0u8, 0x00u8, 0x00u8, 0u8, 0u8,
        0x00u8, 0x20u8, 0u8, 0u8, 0x00u8, 0x20u8, 0u8, 0u8,
        0x00u8, 0x20u8, 0u8, 0u8, 0x00u8, 0x40u8, 0u8, 0u8,
        0xa0u8, 0x00u8, 0u8, 0u8, 0x00u8, 0x60u8, 0u8, 0u8,
        0x7fu8, 0x00u8, 0u8, 0u8, 0xa0u8, 0x60u8, 0u8, 0u8,
        0u8, 0u8, 0u8, 0u8, 0u8, 0u8, 0u8, 0u8,
        0u8, 0u8, 0u8, 0u8, 0u8, 0u8, 0u8, 0u8,
    ]
}

pub open spec fn core_block(c: BessCore) -> Seq<u8> {
    core_head(c) + c.io_registers@ + entries()
}

/// The MBC block: this machine has no bank controller registers.
pub open spec fn mbc_block() -> Seq<u8> {
    seq![0x4du8, 0x42u8, 0x43u8, 0x20u8, 0u8, 0u8, 0u8, 0u8]
}

/// The END block and the footer, which points at the NAME block.
pub open spec fn trailer() -> Seq<u8> {
    seq![
        0x45u8, 0x4eu8, 0x44u8, 0x20u8, 0u8, 0u8, 0u8, 0u8,
        0x1fu8, 0x61u8, 0u8, 0u8, 0x42u8, 0x45u8, 0x53u8, 0x53u8,
    ]
}

pub open spec fn buffers_bytes(c: BessCore) -> Seq<u8> {
    c.ram.buffer@ + c.vram.buffer@ + c.mbc_ram.buffer@ + c.oam.buffer@ + c.hram.buffer@
}

/// The bytes of a snapshot of `c` and `info`: the memory buffers, then the
/// NAME, INFO, CORE, MBC and END blocks, then the footer that points at
/// NAME and ends in "BESS".
#[verifier::opaque]
pub open spec fn bess_bytes(c: BessCore, info: BessInfo) -> Seq<u8> {
    buffers_bytes(c) + name_block() + info_block(info) + core_block(c) + mbc_block() + trailer()
}

/// The `n` bytes at `at`.
pub open spec fn bytes_at(s: Seq<u8>, at: int, n: int) -> Seq<u8> {
    s.subrange(at, at + n)
}

/// The buffer that the size and offset entry at `e` points to.
pub open spec fn buffer_at(s: Seq<u8>, e: int) -> Seq<u8> {
    let size = le_value(bytes_at(s, e, 4));
    let offset = le_value(bytes_at(s, e + 4, 4));
    s.subrange(offset as int, (offset + size) as int)
}

/// Whether the buffer that the entry at `e` points to lies in `s`.
pub open spec fn buffer_fits(s: Seq<u8>, e: int) -> bool {
    le_value(bytes_at(s, e + 4, 4)) + le_value(bytes_at(s, e, 4)) <= s.len()
}

/// `p` holds what `c` holds, the buffer offsets aside.
pub open spec fn same_core(p: BessCore, c: BessCore) -> bool {
    &&& p.pc == c.pc && p.af == c.af && p.bc == c.bc && p.de == c.de && p.hl == c.hl && p.sp == c.sp
    &&& p.ime == c.ime && p.ie == c.ie && p.execution_mode == c.execution_mode
    &&& p.io_registers@ == c.io_registers@
    &&& p.ram.buffer@ == c.ram.buffer@ && p.vram.buffer@ == c.vram.buffer@ && p.mbc_ram.buffer@ == c.mbc_ram.buffer@
    &&& p.oam.buffer@ == c.oam.buffer@ && p.hram.buffer@ == c.hram.buffer@
}

/// Where each part of a snapshot lies in its bytes.
proof fn lemma_layout(c: BessCore, info: BessInfo)
    requires
        c.valid(),
        info.valid(),
    ensures
        ({
            let d = bess_bytes(c, info);
            &&& d.len() == SNAPSHOT_SIZE
            &&& le_value(bytes_at(d, SNAPSHOT_SIZE - 8, 4)) == BUFFERS_SIZE
            &&& le_value(bytes_at(d, SNAPSHOT_SIZE - 4, 4)) == BESS_MAGIC
            &&& bytes_at(d, NAME_AT as int, 4) == seq![0x4eu8, 0x41u8, 0x4du8, 0x45u8]
            &&& le_value(bytes_at(d, NAME_AT + 4, 4)) == NAME_SIZE
            &&& bytes_at(d, INFO_AT as int, 4) == seq![0x49u8, 0x4eu8, 0x46u8, 0x4fu8]
            &&& le_value(bytes_at(d, INFO_AT + 4, 4)) == INFO_SIZE
            &&& bytes_at(d, INFO_AT + 8, 16) == info.title@
            &&& bytes_at(d, INFO_AT + 24, 2) == info.checksum@
            &&& bytes_at(d, CORE_AT as int, 4) == seq![0x43u8, 0x4fu8, 0x52u8, 0x45u8]
            &&& le_value(bytes_at(d, CORE_AT + 4, 4)) == CORE_SIZE
            &&& bytes_at(d, MBC_AT as int, 4) == seq![0x4du8, 0x42u8, 0x43u8, 0x20u8]
            &&& le_value(bytes_at(d, MBC_AT + 4, 4)) == 0
            &&& bytes_at(d, END_AT as int, 4) == seq![0x45u8, 0x4eu8, 0x44u8, 0x20u8]
            &&& bytes_at(d, CORE_AT as int, 216) == core_block(c)
            &&& d.subrange(0, 0x2000) == c.ram.buffer@
            &&& d.subrange(0x2000, 0x4000) == c.vram.buffer@
            &&& d.subrange(0x4000, 0x6000) == c.mbc_ram.buffer@
            &&& d.subrange(0x6000, 0x60a0) == c.oam.buffer@
            &&& d.subrange(0x60a0, 0x611f) == c.hram.buffer@
        }),
{
    reveal(bess_bytes);
    let d = bess_bytes(c, info);
    assert(d.len() == SNAPSHOT_SIZE);
    assert(bytes_at(d, NAME_AT as int, 17) =~= name_block());
    assert(bytes_at(d, INFO_AT as int, 26) =~= info_block(info));
    assert(bytes_at(d, CORE_AT as int, 216) =~= core_block(c));
    assert(bytes_at(d, MBC_AT as int, 8) =~= mbc_block());
    assert(bytes_at(d, END_AT as int, 16) =~= trailer());
    assert(bytes_at(d, SNAPSHOT_SIZE - 8, 4) =~= seq![0x1fu8, 0x61u8, 0u8, 0u8]);
    assert(bytes_at(d, SNAPSHOT_SIZE - 4, 4) =~= seq![0x42u8, 0x45u8, 0x53u8, 0x53u8]);
    lemma_le_value4(0x1f, 0x61, 0, 0);
    lemma_le_value4(0x42, 0x45, 0x53, 0x53);
    assert(bytes_at(d, NAME_AT as int, 4) =~= seq![0x4eu8, 0x41u8, 0x4du8, 0x45u8]);
    assert(bytes_at(d, NAME_AT + 4, 4) =~= seq![9u8, 0u8, 0u8, 0u8]);
    lemma_le_value4(9, 0, 0, 0);
    assert(bytes_at(d, INFO_AT as int, 4) =~= seq![0x49u8, 0x4eu8, 0x46u8, 0x4fu8]);
    assert(bytes_at(d, INFO_AT + 4, 4) =~= seq![18u8, 0u8, 0u8, 0u8]);
    lemma_le_value4(18, 0, 0, 0);
    assert(bytes_at(d, INFO_AT + 8, 16) =~= info.title@);
    assert(bytes_at(d, INFO_AT + 24, 2) =~= info.checksum@);
    assert(bytes_at(d, CORE_AT as int, 4) =~= seq![0x43u8, 0x4fu8, 0x52u8, 0x45u8]);
    assert(bytes_at(d, CORE_AT + 4, 4) =~= seq![208u8, 0u8, 0u8, 0u8]);
    lemma_le_value4(208, 0, 0, 0);
    assert(bytes_at(d, MBC_AT as int, 4) =~= seq![0x4du8, 0x42u8, 0x43u8, 0x20u8]);
    assert(bytes_at(d, MBC_AT + 4, 4) =~= seq![0u8, 0u8, 0u8, 0u8]);
    lemma_le_value4(0, 0, 0, 0);
    assert(bytes_at(d, END_AT as int, 4) =~= seq![0x45u8, 0x4eu8, 0x44u8, 0x20u8]);
    assert(d.subrange(0, 0x2000) =~= c.ram.buffer@);
    assert(d.subrange(0x2000, 0x4000) =~= c.vram.buffer@);
    assert(d.subrange(0x4000, 0x6000) =~= c.mbc_ram.buffer@);
    assert(d.subrange(0x6000, 0x60a0) =~= c.oam.buffer@);
    assert(d.subrange(0x60a0, 0x611f) =~= c.hram.buffer@);
}

/// Where each field of the CORE block lies, relative to the block's body.
proof fn lemma_core_fields(c: BessCore, d: Seq<u8>, at: int)
    requires
        c.valid(),
        0 <= at - 8,
        at + 208 <= d.len(),
        bytes_at(d, at - 8, 216) == core_block(c),
    ensures
        le_value(bytes_at(d, at + 8, 2)) == c.pc,
        le_value(bytes_at(d, at + 10, 2)) == c.af,
        le_value(bytes_at(d, at + 12, 2)) == c.bc,
        le_value(bytes_at(d, at + 14, 2)) == c.de,
        le_value(bytes_at(d, at + 16, 2)) == c.hl,
        le_value(bytes_at(d, at + 18, 2)) == c.sp,
        (d[at + 20] != 0) == c.ime,
        d[at + 21] == c.ie,
        d[at + 22] == c.execution_mode,
        bytes_at(d, at + 24, 128) == c.io_registers@,
        le_value(bytes_at(d, at + 152, 4)) == 0x2000 && le_value(bytes_at(d, at + 156, 4)) == 0,
        le_value(bytes_at(d, at + 160, 4)) == 0x2000 && le_value(bytes_at(d, at + 164, 4)) == 0x2000,
        le_value(bytes_at(d, at + 168, 4)) == 0x2000 && le_value(bytes_at(d, at + 172, 4)) == 0x4000,
        le_value(bytes_at(d, at + 176, 4)) == 0xa0 && le_value(bytes_at(d, at + 180, 4)) == 0x6000,
        le_value(bytes_at(d, at + 184, 4)) == 0x7f && le_value(bytes_at(d, at + 188, 4)) == 0x60a0,
{
    let b = core_block(c);
    let h = core_head(c);
    let base = at - 8;
    assert(b.len() == 216);
    assert forall|i: int| 0 <= i < 216 implies #[trigger] d[base + i] == b[i] by {
        assert(bytes_at(d, base, 216)[i] == d[base + i]);
    }
    assert forall|i: int| 0 <= i < 32 implies #[trigger] b[i] == h[i] by {}
    assert(d[base + 16] == b[16] && d[base + 17] == b[17] && d[base + 18] == b[18] && d[base + 19] == b[19]);
    assert(d[base + 20] == b[20] && d[base + 21] == b[21] && d[base + 22] == b[22] && d[base + 23] == b[23]);
    assert(d[base + 24] == b[24] && d[base + 25] == b[25] && d[base + 26] == b[26] && d[base + 27] == b[27]);
    assert(d[base + 28] == b[28] && d[base + 29] == b[29] && d[base + 30] == b[30]);
    assert(b[16] == h[16] && b[17] == h[17] && b[18] == h[18] && b[19] == h[19] && b[20] == h[20] && b[21] == h[21]);
    assert(b[22] == h[22] && b[23] == h[23] && b[24] == h[24] && b[25] == h[25] && b[26] == h[26] && b[27] == h[27]);
    assert(b[28] == h[28] && b[29] == h[29] && b[30] == h[30]);
    assert(bytes_at(d, at + 8, 2) =~= le2(c.pc));
    assert(bytes_at(d, at + 10, 2) =~= le2(c.af));
    assert(bytes_at(d, at + 12, 2) =~= le2(c.bc));
    assert(bytes_at(d, at + 14, 2) =~= le2(c.de));
    assert(bytes_at(d, at + 16, 2) =~= le2(c.hl));
    assert(bytes_at(d, at + 18, 2) =~= le2(c.sp));
    lemma_le2(c.pc);
    lemma_le2(c.af);
    lemma_le2(c.bc);
    lemma_le2(c.de);
    lemma_le2(c.hl);
    lemma_le2(c.sp);
    assert forall|i: int| 0 <= i < 128 implies #[trigger] bytes_at(d, at + 24, 128)[i] == c.io_registers@[i] by {
        assert(d[base + (32 + i)] == b[32 + i]);
    }
    assert(bytes_at(d, at + 24, 128) =~= c.io_registers@);
    let e = entries();
    assert(h.len() == 32 && e.len() == 56);
    assert(d[base + 160] == b[160] && b[160] == e[0] && d[base + 161] == b[161] && b[161] == e[1] && d[base + 162] == b[162] && b[162] == e[2] && d[base + 163] == b[163] && b[163] == e[3]);
    assert(d[base + 164] == b[164] && b[164] == e[4] && d[base + 165] == b[165] && b[165] == e[5] && d[base + 166] == b[166] && b[166] == e[6] && d[base + 167] == b[167] && b[167] == e[7]);
    assert(d[base + 168] == b[168] && b[168] == e[8] && d[base + 169] == b[169] && b[169] == e[9] && d[base + 170] == b[170] && b[170] == e[10] && d[base + 171] == b[171] && b[171] == e[11]);
    assert(d[base + 172] == b[172] && b[172] == e[12] && d[base + 173] == b[173] && b[173] == e[13] && d[base + 174] == b[174] && b[174] == e[14] && d[base + 175] == b[175] && b[175] == e[15]);
    assert(d[base + 176] == b[176] && b[176] == e[16] && d[base + 177] == b[177] && b[177] == e[17] && d[base + 178] == b[178] && b[178] == e[18] && d[base + 179] == b[179] && b[179] == e[19]);
    assert(d[base + 180] == b[180] && b[180] == e[20] && d[base + 181] == b[181] && b[181] == e[21] && d[base + 182] == b[182] && b[182] == e[22] && d[base + 183] == b[183] && b[183] == e[23]);
    assert(d[base + 184] == b[184] && b[184] == e[24] && d[base + 185] == b[185] && b[185] == e[25] && d[base + 186] == b[186] && b[186] == e[26] && d[base + 187] == b[187] && b[187] == e[27]);
    assert(d[base + 188] == b[188] && b[188] == e[28] && d[base + 189] == b[189] && b[189] == e[29] && d[base + 190] == b[190] && b[190] == e[30] && d[base + 191] == b[191] && b[191] == e[31]);
    assert(d[base + 192] == b[192] && b[192] == e[32] && d[base + 193] == b[193] && b[193] == e[33] && d[base + 194] == b[194] && b[194] == e[34] && d[base + 195] == b[195] && b[195] == e[35]);
    assert(d[base + 196] == b[196] && b[196] == e[36] && d[base + 197] == b[197] && b[197] == e[37] && d[base + 198] == b[198] && b[198] == e[38] && d[base + 199] == b[199] && b[199] == e[39]);
    assert(bytes_at(d, at + 152, 4) =~= seq![0x00u8, 0x20u8, 0u8, 0u8]);
    assert(bytes_at(d, at + 156, 4) =~= seq![0x00u8, 0x00u8, 0u8, 0u8]);
    assert(bytes_at(d, at + 160, 4) =~= seq![0x00u8, 0x20u8, 0u8, 0u8]);
    assert(bytes_at(d, at + 164, 4) =~= seq![0x00u8, 0x20u8, 0u8, 0u8]);
    assert(bytes_at(d, at + 168, 4) =~= seq![0x00u8, 0x20u8, 0u8, 0u8]);
    assert(bytes_at(d, at + 172, 4) =~= seq![0x00u8, 0x40u8, 0u8, 0u8]);
    assert(bytes_at(d, at + 176, 4) =~= seq![0xa0u8, 0x00u8, 0u8, 0u8]);
    assert(bytes_at(d, at + 180, 4) =~= seq![0x00u8, 0x60u8, 0u8, 0u8]);
    assert(bytes_at(d, at + 184, 4) =~= seq![0x7fu8, 0x00u8, 0u8, 0u8]);
    assert(bytes_at(d, at + 188, 4) =~= seq![0xa0u8, 0x60u8, 0u8, 0u8]);
    lemma_le_value4(0x00, 0x20, 0, 0);
    lemma_le_value4(0x00, 0x00, 0, 0);
    lemma_le_value4(0x00, 0x40, 0, 0);
    lemma_le_value4(0xa0, 0x00, 0, 0);
    lemma_le_value4(0x00, 0x60, 0, 0);
    lemma_le_value4(0x7f, 0x00, 0, 0);
    lemma_le_value4(0xa0, 0x60, 0, 0);
}

fn write_le2(out: &mut Vec<u8>, v: u16)
    ensures
        final(out)@ == old(out)@ + le2(v),
{
    write_u16(out, v);
    proof {
        lemma_le2(v);
    }
}

fn write_core_head(out: &mut Vec<u8>, c: &BessCore)
    ensures
        final(out)@ == old(out)@ + core_head(*c),
{
    let ghost o0 = out@;
    write_bytes(out, &[0x43u8, 0x4f, 0x52, 0x45, 208, 0, 0, 0, 1, 0, 1, 0, 0x47, 0x44, 0x20, 0x20]);
    write_le2(out, c.pc);
    write_le2(out, c.af);
    write_le2(out, c.bc);
    write_le2(out, c.de);
    write_le2(out, c.hl);
    write_le2(out, c.sp);
    write_bytes(out, &[if c.ime { 1u8 } else { 0u8 }, c.ie, c.execution_mode, 0]);
    assert(out@ =~= o0 + core_head(*c));
}

fn write_entries(out: &mut Vec<u8>)
    ensures
        final(out)@ == old(out)@ + entries(),
{
    let ghost o0 = out@;
    write_bytes(out, &[0x00u8, 0x20, 0, 0, 0x00, 0x00, 0, 0, 0x00, 0x20, 0, 0, 0x00, 0x20, 0, 0]);
    write_bytes(out, &[0x00u8, 0x20, 0, 0, 0x00, 0x40, 0, 0, 0xa0, 0x00, 0, 0, 0x00, 0x60, 0, 0]);
    write_bytes(out, &[0x7fu8, 0x00, 0, 0, 0xa0, 0x60, 0, 0, 0, 0, 0, 0, 0, 0, 0, 0]);
    write_bytes(out, &[0u8, 0, 0, 0, 0, 0, 0, 0]);
    assert(out@ =~= o0 + entries());
}

fn write_name_block(out: &mut Vec<u8>)
    ensures
        final(out)@ == old(out)@ + name_block(),
{
    let ghost o0 = out@;
    write_bytes(out, &[0x4eu8, 0x41, 0x4d, 0x45, 9, 0, 0, 0, 0x62, 0x6f, 0x79, 0x74, 0x61, 0x63, 0x65, 0x61, 0x6e]);
    assert(out@ =~= o0 + name_block());
}

fn write_info_block(out: &mut Vec<u8>, info: &BessInfo)
    ensures
        final(out)@ == old(out)@ + info_block(*info),
{
    let ghost o0 = out@;
    write_bytes(out, &[0x49u8, 0x4e, 0x46, 0x4f, 18, 0, 0, 0]);
    write_bytes(out, info.title.as_slice());
    write_bytes(out, info.checksum.as_slice());
    assert(out@ =~= o0 + info_block(*info));
}

fn write_mbc_block(out: &mut Vec<u8>)
    ensures
        final(out)@ == old(out)@ + mbc_block(),
{
    let ghost o0 = out@;
    write_bytes(out, &[0x4du8, 0x42, 0x43, 0x20, 0, 0, 0, 0]);
    assert(out@ =~= o0 + mbc_block());
}

fn write_trailer(out: &mut Vec<u8>)
    ensures
        final(out)@ == old(out)@ + trailer(),
{
    let ghost o0 = out@;
    write_bytes(out, &[0x45u8, 0x4e, 0x44, 0x20, 0, 0, 0, 0, 0x1f, 0x61, 0, 0, 0x42, 0x45, 0x53, 0x53]);
    assert(out@ =~= o0 + trailer());
}

fn write_bytes(out: &mut Vec<u8>, data: &[u8])
    ensures
        final(out)@ == old(out)@ + data@,
{
    let mut i: usize = 0;
    while i < data.len()
        invariant
            i <= data@.len(),
            out@ == old(out)@ + data@.subrange(0, i as int),
        decreases data@.len() - i,
    {
        out.push(data[i]);
        i += 1;
        proof {
            assert(data@.subrange(0, i as int) =~= data@.subrange(0, i - 1).push(data@[i - 1]));
        }
    }
    assert(data@.subrange(0, data@.len() as int) =~= data@);
}

/// Reads `size` bytes at `offset`, if the data holds them.
fn load_buffer(data: &[u8], size: u32, offset: u32) -> (r: Result<BessBuffer, StateError>)
    ensures
        r is Ok <==> offset + size <= data@.len(),
        r is Ok ==> r->Ok_0.buffer@ == data@.subrange(offset as int, offset + size) && r->Ok_0.size == size
            && r->Ok_0.offset == offset,
        r is Err ==> r == Err::<BessBuffer, StateError>(StateError::Truncated),
{
    if (offset as usize) > data.len() || (size as usize) > data.len() - offset as usize {
        return Err(StateError::Truncated);
    }
    let mut pos = offset as usize;
    let buffer = crate::data::read_bytes(data, &mut pos, size as usize);
    Ok(BessBuffer { size, offset, buffer })
}

fn read_word(data: &[u8], pos: &mut usize) -> (r: Result<u16, StateError>)
    ensures
        *old(pos) + 2 <= data@.len() <==> r is Ok,
        r is Ok ==> r->Ok_0 == le_value(data@.subrange(*old(pos) as int, *old(pos) + 2)),
        r is Ok ==> *final(pos) == *old(pos) + 2,
        r is Err ==> r == Err::<u16, StateError>(StateError::Truncated),
{
    match read_u16(data, pos) {
        Ok(v) => Ok(v),
        Err(_) => Err(StateError::Truncated),
    }
}

fn read_long(data: &[u8], pos: &mut usize) -> (r: Result<u32, StateError>)
    ensures
        *old(pos) + 4 <= data@.len() <==> r is Ok,
        r is Ok ==> r->Ok_0 == le_value(data@.subrange(*old(pos) as int, *old(pos) + 4)),
        r is Ok ==> *final(pos) == *old(pos) + 4,
        r is Err ==> r == Err::<u32, StateError>(StateError::Truncated),
{
    match read_u32(data, pos) {
        Ok(v) => Ok(v),
        Err(_) => Err(StateError::Truncated),
    }
}

fn read_byte(data: &[u8], pos: &mut usize) -> (r: Result<u8, StateError>)
    ensures
        *old(pos) < data@.len() <==> r is Ok,
        r is Ok ==> r->Ok_0 == data@[*old(pos) as int],
        r is Ok ==> *final(pos) == *old(pos) + 1,
        r is Err ==> r == Err::<u8, StateError>(StateError::Truncated),
{
    match read_u8(data, pos) {
        Ok(v) => Ok(v),
        Err(_) => Err(StateError::Truncated),
    }
}

/// The cartridge's title and header checksum, as a snapshot records them.
pub struct BessInfo {
    pub title: Vec<u8>,
    pub checksum: Vec<u8>,
}

/// The title bytes of the cartridge loaded in `gb`.
pub open spec fn rom_title(gb: GameBoy) -> Seq<u8> {
    gb.cpu.mmu.memory.rom@.subrange(0x134, 0x144)
}

impl BessInfo {
    pub open spec fn valid(&self) -> bool {
        self.title@.len() == 16 && self.checksum@.len() == 2
    }

    /// The title and checksum of the cartridge loaded in `gb`.
    pub fn from_gb(gb: &GameBoy) -> (r: Self)
        requires
            gb.wf(),
        ensures
            r.valid(),
            r.title@ == rom_title(*gb),
            r.checksum@ == gb.cpu.mmu.memory.rom@.subrange(0x14e, 0x150),
    {
        let rom = gb.cpu.mmu.memory.rom.as_slice();
        let mut pos: usize = 0x134;
        let title = crate::data::read_bytes(rom, &mut pos, 16);
        let mut pos: usize = 0x14e;
        let checksum = crate::data::read_bytes(rom, &mut pos, 2);
        BessInfo { title, checksum }
    }

    /// Reads the body of an INFO block at `*pos`.
    pub fn from_data(data: &[u8], pos: &mut usize) -> (r: Result<Self, StateError>)
        requires
            *old(pos) <= data@.len(),
        ensures
            r is Ok <==> *old(pos) + 18 <= data@.len(),
            r is Ok ==> r->Ok_0.valid() && r->Ok_0.title@ == bytes_at(data@, *old(pos) as int, 16)
                && r->Ok_0.checksum@ == bytes_at(data@, *old(pos) + 16, 2),
            r is Err ==> r == Err::<Self, StateError>(StateError::Truncated),
    {
        if data.len() - *pos < 18 {
            return Err(StateError::Truncated);
        }
        let title = crate::data::read_bytes(data, pos, 16);
        let checksum = crate::data::read_bytes(data, pos, 2);
        Ok(BessInfo { title, checksum })
    }
}

/// `c` is what `BessCore::from_data` reads from the CORE body at `at`.
pub open spec fn core_read_at(c: BessCore, d: Seq<u8>, at: int) -> bool {
    &&& c.pc == le_value(bytes_at(d, at + 8, 2))
    &&& c.af == le_value(bytes_at(d, at + 10, 2))
    &&& c.bc == le_value(bytes_at(d, at + 12, 2))
    &&& c.de == le_value(bytes_at(d, at + 14, 2))
    &&& c.hl == le_value(bytes_at(d, at + 16, 2))
    &&& c.sp == le_value(bytes_at(d, at + 18, 2))
    &&& c.ime == (d[at + 20] != 0)
    &&& c.ie == d[at + 21]
    &&& c.execution_mode == d[at + 22]
    &&& c.io_registers@ == bytes_at(d, at + 24, 128)
    &&& c.ram.buffer@ == buffer_at(d, at + 152)
    &&& c.vram.buffer@ == buffer_at(d, at + 160)
    &&& c.mbc_ram.buffer@ == buffer_at(d, at + 168)
    &&& c.oam.buffer@ == buffer_at(d, at + 176)
    &&& c.hram.buffer@ == buffer_at(d, at + 184)
}

/// The CORE block of a snapshot written here reads back as the core it was
/// written from.
#[verifier::rlimit(40)]
proof fn lemma_read_core(p: BessCore, c: BessCore, info: BessInfo)
    requires
        c.valid(),
        info.valid(),
        core_read_at(p, bess_bytes(c, info), CORE_AT + 8),
    ensures
        same_core(p, c),
        p.valid(),
{
    lemma_layout(c, info);
    lemma_core_fields(c, bess_bytes(c, info), CORE_AT + 8);
}

/// A whole snapshot: the core, the cartridge information and the footer.
pub struct BessState {
    pub core: BessCore,
    pub info: BessInfo,
    pub footer: BessFooter,
}

impl BessState {
    pub fn from_gb(gb: &GameBoy) -> (r: Self)
        requires
            gb.wf(),
        ensures
            r.core.valid(),
            r.info.valid(),
            r.info.title@ == rom_title(*gb),
            registers_match(r.core, gb.cpu),
            buffers_match(r.core, gb.cpu.mmu),
            forall|i: int|
                0 <= i < 128 ==> #[trigger] r.core.io_registers@[i] == gb.cpu.mmu.read_spec((0xff00 + i) as u16),
            r.footer.magic == BESS_MAGIC,
    {
        BessState { core: BessCore::from_gb(gb), info: BessInfo::from_gb(gb), footer: BessFooter::new(0, BESS_MAGIC) }
    }

    pub fn verify(&self) -> (r: Result<(), StateError>)
        ensures
            r is Ok <==> self.footer.magic == BESS_MAGIC && self.core.valid(),
            r is Err ==> r == Err::<(), StateError>(StateError::InvalidMagic) || r == Err::<(), StateError>(
                StateError::InvalidSize,
            ),
    {
        self.footer.verify()?;
        self.core.verify()?;
        Ok(())
    }

    /// Lays the snapshot out: the memory buffers, the NAME, INFO, CORE, MBC
    /// and END blocks, and the footer pointing at the NAME block.
    pub fn write(&mut self, out: &mut Vec<u8>)
        requires
            old(self).core.valid(),
        ensures
            final(out)@ == old(out)@ + bess_bytes(old(self).core, old(self).info),
    {
        let ghost start = out@;
        let core = &mut self.core;
        core.ram.offset = 0;
        core.vram.offset = 0x2000;
        core.mbc_ram.offset = 0x4000;
        core.oam.offset = 0x6000;
        core.hram.offset = 0x60a0;
        self.footer.start_offset = BUFFERS_SIZE;
        self.footer.magic = BESS_MAGIC;
        write_bytes(out, self.core.ram.buffer.as_slice());
        write_bytes(out, self.core.vram.buffer.as_slice());
        write_bytes(out, self.core.mbc_ram.buffer.as_slice());
        write_bytes(out, self.core.oam.buffer.as_slice());
        write_bytes(out, self.core.hram.buffer.as_slice());
        let ghost o5 = out@;
        write_name_block(out);
        let ghost o6 = out@;
        write_info_block(out, &self.info);
        let ghost o7 = out@;
        write_core_head(out, &self.core);
        write_bytes(out, self.core.io_registers.as_slice());
        write_entries(out);
        let ghost o8 = out@;
        write_mbc_block(out);
        let ghost o9 = out@;
        write_trailer(out);
        proof {
            reveal(bess_bytes);
            let c = old(self).core;
            assert(core_head(self.core) == core_head(c));
            assert(o5 =~= start + buffers_bytes(c));
            assert(o8 =~= o7 + core_block(c));
            assert(out@ =~= start + bess_bytes(c, old(self).info));
        }
    }

    /// Reads a snapshot: the footer at the end, then the blocks from where
    /// it points up to END. INFO and CORE are read; other blocks are
    /// skipped. Bytes laid out by `write` always read back.
    pub fn read(data: &[u8]) -> (r: Result<BessState, StateError>)
        ensures
            data@.len() < 8 ==> r == Err::<BessState, StateError>(StateError::Truncated),
            data@.len() >= 8 && le_value(data@.subrange(data@.len() - 4, data@.len() as int)) != BESS_MAGIC ==> r
                == Err::<BessState, StateError>(StateError::InvalidMagic),
            r is Ok ==> r->Ok_0.footer.magic == BESS_MAGIC,
            r is Ok ==> exists|at: int| #[trigger] core_read_at(r->Ok_0.core, data@, at),
            forall|c: BessCore, info: BessInfo|
                c.valid() && info.valid() && data@ == #[trigger] bess_bytes(c, info) ==> r is Ok && same_core(
                    r->Ok_0.core,
                    c,
                ) && r->Ok_0.info.title@ == info.title@ && r->Ok_0.info.checksum@ == info.checksum@,
    {
        let ghost laid = exists|c: BessCore, info: BessInfo|
            c.valid() && info.valid() && data@ == #[trigger] bess_bytes(c, info);
        let ghost (gc, gi) = choose|c: BessCore, info: BessInfo|
            c.valid() && info.valid() && data@ == #[trigger] bess_bytes(c, info);
        proof {
            if laid {
                lemma_layout(gc, gi);
            }
        }
        if data.len() < 8 {
            return Err(StateError::Truncated);
        }
        let mut pos = data.len() - 8;
        let start_offset = read_long(data, &mut pos)?;
        let magic = read_long(data, &mut pos)?;
        let footer = BessFooter::new(start_offset, magic);
        footer.verify()?;
        let mut pos = start_offset as usize;
        let mut core: Option<BessCore> = None;
        let ghost mut core_at: int = 0;
        let mut info = BessInfo { title: vec![0u8; 16], checksum: vec![0u8; 2] };
        loop
            invariant_except_break
                laid ==> ({
                    ||| (pos == NAME_AT || pos == INFO_AT) && core is None
                    ||| pos == CORE_AT && core is None && info.title@ == gi.title@ && info.checksum@ == gi.checksum@
                    ||| (pos == MBC_AT || pos == END_AT) && core is Some && core_read_at(core->0, data@, CORE_AT + 8)
                        && info.title@ == gi.title@ && info.checksum@ == gi.checksum@
                }),
            invariant
                footer.magic == BESS_MAGIC,
                core is Some ==> core_read_at(core->0, data@, core_at),
                data@.len() >= 8,
                le_value(data@.subrange(data@.len() - 4, data@.len() as int)) == BESS_MAGIC,
                laid ==> gc.valid() && gi.valid() && data@ == bess_bytes(gc, gi),
                forall|c: BessCore, i: BessInfo|
                    c.valid() && i.valid() && data@ == #[trigger] bess_bytes(c, i) ==> laid,
                laid ==> data@.len() == SNAPSHOT_SIZE,
            ensures
                core is Some ==> core_read_at(core->0, data@, core_at),
                laid ==> core is Some && core_read_at(core->0, data@, CORE_AT + 8) && info.title@ == gi.title@
                    && info.checksum@ == gi.checksum@,
            decreases data@.len() - pos,
        {
            proof {
                if laid {
                    lemma_layout(gc, gi);
                    lemma_core_fields(gc, data@, CORE_AT + 8);
                }
            }
            if pos > data.len() || data.len() - pos < 8 {
                return Err(StateError::Truncated);
            }
            let header = BessBlockHeader::from_data(data, &mut pos)?;
            if header.is_end() {
                break;
            }
            let m = header.magic;
            if m[0] == 0x43 && m[1] == 0x4f && m[2] == 0x52 && m[3] == 0x45 {
                let mut body = pos;
                core = Some(BessCore::from_data(data, &mut body)?);
                proof {
                    core_at = pos as int;
                }
            } else if m[0] == 0x49 && m[1] == 0x4e && m[2] == 0x46 && m[3] == 0x4f {
                let mut body = pos;
                info = BessInfo::from_data(data, &mut body)?;
            }
            let size = header.size;
            if (size as usize) > data.len() - pos {
                return Err(StateError::Truncated);
            }
            pos = pos + size as usize;
        }
        match core {
            Some(core) => {
                proof {
                    assert forall|c: BessCore, i: BessInfo|
                        c.valid() && i.valid() && data@ == #[trigger] bess_bytes(c, i) implies same_core(core, c)
                            && info.title@ == i.title@ && info.checksum@ == i.checksum@ by {
                        lemma_read_core(core, c, i);
                        lemma_layout(c, i);
                        lemma_layout(gc, gi);
                    }
                }
                let st = BessState { core, info, footer };
                let ghost c0 = st.core;
                let r: Result<BessState, StateError> = Ok(st);
                assert(r->Ok_0.core == c0);
                assert(core_read_at(r->Ok_0.core, data@, core_at));
                r
            },
            None => Err(StateError::MissingCore),
        }
    }
}

impl BessCore {
    /// Reads the body of a CORE block at `*pos`: version, model,
    /// registers, I/O registers and the entries of the buffers, which are
    /// then read from where the entries point.
    pub fn from_data(data: &[u8], pos: &mut usize) -> (r: Result<BessCore, StateError>)
        requires
            *old(pos) <= data@.len(),
        ensures
            r is Ok ==> core_read_at(r->Ok_0, data@, *old(pos) as int),
            *old(pos) + 192 <= data@.len() && buffer_fits(data@, *old(pos) + 152) && buffer_fits(data@, *old(pos) + 160)
                && buffer_fits(data@, *old(pos) + 168) && buffer_fits(data@, *old(pos) + 176) && buffer_fits(
                data@,
                *old(pos) + 184,
            ) ==> r is Ok,
            r is Err ==> r == Err::<BessCore, StateError>(StateError::Truncated),
    {
        let ghost p = *pos;
        if data.len() - *pos < 192 {
            return Err(StateError::Truncated);
        }
        let _major = read_word(data, pos)?;
        let _minor = read_word(data, pos)?;
        let _model = read_long(data, pos)?;
        let pc = read_word(data, pos)?;
        let af = read_word(data, pos)?;
        let bc = read_word(data, pos)?;
        let de = read_word(data, pos)?;
        let hl = read_word(data, pos)?;
        let sp = read_word(data, pos)?;
        let ime = read_byte(data, pos)?;
        let ie = read_byte(data, pos)?;
        let execution_mode = read_byte(data, pos)?;
        let _padding = read_byte(data, pos)?;
        let io_registers = crate::data::read_bytes(data, pos, 128);
        let ram_size = read_long(data, pos)?;
        let ram_offset = read_long(data, pos)?;
        let vram_size = read_long(data, pos)?;
        let vram_offset = read_long(data, pos)?;
        let mbc_size = read_long(data, pos)?;
        let mbc_offset = read_long(data, pos)?;
        let oam_size = read_long(data, pos)?;
        let oam_offset = read_long(data, pos)?;
        let hram_size = read_long(data, pos)?;
        let hram_offset = read_long(data, pos)?;
        Ok(BessCore {
            pc,
            af,
            bc,
            de,
            hl,
            sp,
            ime: ime != 0,
            ie,
            execution_mode,
            io_registers,
            ram: load_buffer(data, ram_size, ram_offset)?,
            vram: load_buffer(data, vram_size, vram_offset)?,
            mbc_ram: load_buffer(data, mbc_size, mbc_offset)?,
            oam: load_buffer(data, oam_size, oam_offset)?,
            hram: load_buffer(data, hram_size, hram_offset)?,
        })
    }
}

fn bytes_equal(a: &Vec<u8>, b: &Vec<u8>) -> (r: bool)
    ensures
        r == (a@ == b@),
{
    if a.len() != b.len() {
        return false;
    }
    let mut i: usize = 0;
    while i < a.len()
        invariant
            a@.len() == b@.len(),
            i <= a@.len(),
            forall|j: int| 0 <= j < i ==> a@[j] == b@[j],
        decreases a@.len() - i,
    {
        if a[i] != b[i] {
            return false;
        }
        i += 1;
    }
    assert(a@ =~= b@);
    true
}

/// The entry points for saving and loading snapshots as bytes.
pub struct StateManager;

impl StateManager {
    /// The snapshot of `gb` as bytes.
    pub fn save(gb: &GameBoy) -> (r: Vec<u8>)
        requires
            gb.wf(),
        ensures
            exists|core: BessCore, info: BessInfo|
                #[trigger] bess_bytes(core, info) == r@ && registers_match(core, gb.cpu) && buffers_match(core, gb.cpu.mmu)
                    && core.valid() && info.valid() && info.title@ == rom_title(*gb) && forall|i: int|
                    0 <= i < 128 ==> #[trigger] core.io_registers@[i] == gb.cpu.mmu.read_spec((0xff00 + i) as u16),
    {
        let mut data: Vec<u8> = Vec::new();
        let mut state = BessState::from_gb(gb);
        let ghost core = state.core;
        let ghost info = state.info;
        state.write(&mut data);
        assert(data@ =~= bess_bytes(core, info));
        assert(registers_match(core, gb.cpu));
        data
    }

    /// Reads a snapshot and applies it to `gb`. It is refused, leaving
    /// `gb` as it was, when it is cut short, its footer magic is wrong, its
    /// buffers have the wrong sizes or its cartridge title is not the one
    /// of the cartridge loaded. A snapshot written by `save` is applied in
    /// full whenever the titles agree.
    pub fn load(data: &[u8], gb: &mut GameBoy) -> (r: Result<(), StateError>)
        requires
            old(gb).wf(),
        ensures
            final(gb).wf(),
            r is Err ==> *final(gb) == *old(gb),
            data@.len() < 8 ==> r == Err::<(), StateError>(StateError::Truncated),
            data@.len() >= 8 && le_value(data@.subrange(data@.len() - 4, data@.len() as int)) != BESS_MAGIC ==> r
                == Err::<(), StateError>(StateError::InvalidMagic),
            forall|c: BessCore, info: BessInfo|
                c.valid() && info.valid() && data@ == #[trigger] bess_bytes(c, info) ==> (r is Ok <==> info.title@
                    == rom_title(*old(gb))) && (r is Ok ==> registers_match(c, final(gb).cpu) && buffers_match(
                    c,
                    final(gb).cpu.mmu,
                )) && (r is Err ==> r == Err::<(), StateError>(StateError::TitleMismatch)),
            r is Ok ==> exists|core: BessCore, at: int|
                #[trigger] core_read_at(core, data@, at) && core.valid() && registers_match(core, final(gb).cpu)
                    && buffers_match(core, final(gb).cpu.mmu),
    {
        let state = BessState::read(data)?;
        state.verify()?;
        let rom = gb.cpu.mmu.memory.rom.as_slice();
        let mut pos: usize = 0x134;
        let title = crate::data::read_bytes(rom, &mut pos, 16);
        if !bytes_equal(&state.info.title, &title) {
            return Err(StateError::TitleMismatch);
        }
        let ghost before = *gb;
        let r = state.core.to_gb(gb);
        proof {
            if r is Ok {
                let at = choose|at: int| core_read_at(state.core, data@, at);
                assert(core_read_at(state.core, data@, at));
            }
            assert forall|c: BessCore, info: BessInfo|
                c.valid() && info.valid() && data@ == #[trigger] bess_bytes(c, info) implies registers_match(c, gb.cpu)
                    && buffers_match(c, gb.cpu.mmu) by {
                assert(same_core(state.core, c));
            }
        }
        r
    }
}
} // verus!
