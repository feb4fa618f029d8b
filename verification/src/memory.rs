//! The memory: one flat 64 KiB byte array addressable by the full 16-bit
//! range, with 8- and 16-bit little-endian reads and writes. Hardware
//! registers (such as the scanline counter) are ordinary bytes here.

use vstd::prelude::*;
use crate::rom::Rom;

verus! {

/// Number of addressable bytes.
pub const MEMORY_SIZE: usize = 0x10000;

/// Number of bytes of the low region that a boot image overlays.
pub const BOOT_REGION: usize = 0xFF;

/// The flat 64 KiB memory.
pub struct Memory {
    pub data: Vec<u8>,
}

/// The byte at `addr`.
pub open spec fn spec_read8(mem: Seq<u8>, addr: u16) -> u8 {
    mem[addr as int]
}

/// The little-endian 16-bit value at `addr` (low byte first).
pub open spec fn spec_read16(mem: Seq<u8>, addr: u16) -> u16 {
    crate::registers::spec_combine(mem[addr as int + 1], mem[addr as int])
}

/// The memory after writing one byte at `addr`.
pub open spec fn spec_write8(mem: Seq<u8>, addr: u16, value: u8) -> Seq<u8> {
    mem.update(addr as int, value)
}

/// The memory after a little-endian 16-bit write at `addr` (low byte first).
pub open spec fn spec_write16(mem: Seq<u8>, addr: u16, value: u16) -> Seq<u8> {
    mem.update(addr as int, crate::registers::spec_low_byte(value)).update(
        addr as int + 1,
        crate::registers::spec_high_byte(value),
    )
}

/// The initial memory contents: the cartridge image fills the low addresses,
/// then the boot image overlays the low region; everything else is zero.
/// Images longer than the region they fill are silently truncated.
pub open spec fn spec_initial_memory(boot: Seq<u8>, rom: Seq<u8>) -> Seq<u8> {
    Seq::new(
        MEMORY_SIZE as nat,
        |i: int|
            if i < boot.len() && i < BOOT_REGION {
                boot[i]
            } else if i < rom.len() {
                rom[i]
            } else {
                0u8
            },
    )
}

/// The bytes of an optional cartridge image; empty where none was given.
pub open spec fn rom_bytes(rom: Option<Rom>) -> Seq<u8> {
    match rom {
        Some(cart) => cart.data@,
        None => Seq::<u8>::empty(),
    }
}

impl Memory {
    /// Every address of the 16-bit range is backed by a byte.
    pub open spec fn wf(self) -> bool {
        self.data@.len() == MEMORY_SIZE
    }

    /// Build the memory from a boot image and an optional cartridge image.
    pub fn new(boot_rom: Rom, rom: Option<Rom>) -> (r: Memory)
        ensures
            r.wf(),
            r.data@ == spec_initial_memory(boot_rom.data@, rom_bytes(rom)),
    {
        let ghost cart_bytes: Seq<u8> = rom_bytes(rom);
        let mut data: Vec<u8> = Vec::new();
        while data.len() < MEMORY_SIZE
            invariant
                data@.len() <= MEMORY_SIZE,
                forall|i: int| 0 <= i < data@.len() ==> data@[i] == 0u8,
            decreases MEMORY_SIZE - data@.len(),
        {
            data.push(0u8);
        }

        match &rom {
            Some(cart) => {
                proof {
                    assert(cart.data@ == cart_bytes);
                }
                let mut i: usize = 0;
                let n: usize = if cart.data.len() < MEMORY_SIZE {
                    cart.data.len()
                } else {
                    MEMORY_SIZE
                };
                while i < n
                    invariant
                        cart.data@ == cart_bytes,
                        n <= cart_bytes.len(),
                        n <= MEMORY_SIZE,
                        n == if cart_bytes.len() < MEMORY_SIZE {
                            cart_bytes.len() as int
                        } else {
                            MEMORY_SIZE as int
                        },
                        i <= n,
                        data@.len() == MEMORY_SIZE,
                        forall|j: int| 0 <= j < i ==> data@[j] == cart_bytes[j],
                        forall|j: int| i <= j < MEMORY_SIZE ==> data@[j] == 0u8,
                    decreases n - i,
                {
                    let byte = cart.data[i];
                    data.set(i, byte);
                    i = i + 1;
                }
            }
            None => {}
        }

        assert(forall|j: int|
            0 <= j < MEMORY_SIZE ==> data@[j] == old_contents(cart_bytes, j));

        let n_boot: usize = if boot_rom.data.len() < BOOT_REGION {
            boot_rom.data.len()
        } else {
            BOOT_REGION
        };
        let mut i: usize = 0;
        while i < n_boot
            invariant
                n_boot <= boot_rom.data@.len(),
                n_boot <= BOOT_REGION,
                n_boot == if boot_rom.data@.len() < BOOT_REGION {
                    boot_rom.data@.len() as int
                } else {
                    BOOT_REGION as int
                },
                i <= n_boot,
                data@.len() == MEMORY_SIZE,
                forall|j: int| 0 <= j < i ==> data@[j] == boot_rom.data@[j],
                forall|j: int| i <= j < MEMORY_SIZE ==> data@[j] == old_contents(cart_bytes, j),
            decreases n_boot - i,
        {
            let byte = boot_rom.data[i];
            data.set(i, byte);
            i = i + 1;
        }

        proof {
            let want = spec_initial_memory(boot_rom.data@, cart_bytes);
            assert(data@.len() == want.len());
            assert forall|j: int| 0 <= j < MEMORY_SIZE implies data@[j] == want[j] by {
                assert(want[j] == if j < boot_rom.data@.len() && j < BOOT_REGION {
                    boot_rom.data@[j]
                } else if j < cart_bytes.len() {
                    cart_bytes[j]
                } else {
                    0u8
                });
                if j < i as int {
                    assert(data@[j] == boot_rom.data@[j]);
                } else {
                    assert(data@[j] == old_contents(cart_bytes, j));
                }
            };
            assert(data@ =~= want);
        }
        Memory { data }
    }

    /// Read one byte.
    pub fn read_addr8(&self, addr: u16) -> (r: u8)
        requires
            self.wf(),
        ensures
            r == spec_read8(self.data@, addr),
    {
        self.data[addr as usize]
    }

    /// Read a little-endian 16-bit value (low byte at `addr`).
    pub fn read_addr16(&self, addr: u16) -> (r: u16)
        requires
            self.wf(),
            addr < 0xFFFF,
        ensures
            r == spec_read16(self.data@, addr),
    {
        let lo = self.data[addr as usize];
        let hi = self.data[addr as usize + 1];
        hi as u16 * 256 + lo as u16
    }

    /// Write one byte.
    pub fn write_addr8(&mut self, addr: u16, value: u8)
        requires
            old(self).wf(),
        ensures
            final(self).wf(),
            final(self).data@ == spec_write8(old(self).data@, addr, value),
    {
        self.data.set(addr as usize, value);
    }

    /// Write a little-endian 16-bit value (low byte at `addr`).
    pub fn write_addr16(&mut self, addr: u16, value: u16)
        requires
            old(self).wf(),
            addr < 0xFFFF,
        ensures
            final(self).wf(),
            final(self).data@ == spec_write16(old(self).data@, addr, value),
    {
        self.data.set(addr as usize, (value % 256) as u8);
        self.data.set(addr as usize + 1, (value / 256) as u8);
    }
}

/// The byte that the cartridge copy left at an address: a cartridge byte
/// where one was copied, zero elsewhere.
pub open spec fn old_contents(cart_bytes: Seq<u8>, j: int) -> u8 {
    if 0 <= j < cart_bytes.len() {
        cart_bytes[j]
    } else {
        0u8
    }
}

} // verus!
