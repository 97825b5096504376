//! The memory image: seven fixed-size regions, each addressed from offset 0
//! within itself, the two ROM banks filled once from a cartridge image.

use vstd::prelude::*;

verus! {

/// Size in bytes of each of the two ROM banks.
pub const ROM_BANK_SIZE: usize = 0x4000;

/// Size in bytes of each of the five RAM regions.
pub const RAM_REGION_SIZE: usize = 0x2000;

/// Mem represents internal memory type
pub struct Mem {
    /// First 16K section of 32K cartridge ROM
    pub rom: [u8; 0x4000],
    /// Second 16K section of 32K cartridge ROM
    pub switchable_rom: [u8; 0x4000],
    /// 8K video RAM
    pub video_ram: [u8; 0x2000],
    /// 8K switchable RAM bank
    pub switchable_ram: [u8; 0x2000],
    /// 8K internal RAM
    pub internal_ram: [u8; 0x2000],
    /// 8K internal RAM echo
    pub internal_ram_echo: [u8; 0x2000],
    /// 8K memory dedicated to sprite attribs
    pub sprite_attrib_mem: [u8; 0x2000],
}

/// Names one of the seven regions of a [`Mem`].
#[derive(Clone, Copy, Debug, PartialEq, Eq, Structural)]
pub enum Region {
    Rom,
    SwitchableRom,
    VideoRam,
    SwitchableRam,
    InternalRam,
    InternalRamEcho,
    SpriteAttribMem,
}

impl Region {
    /// The number of bytes in the region.
    pub open spec fn spec_size(self) -> usize {
        match self {
            Region::Rom | Region::SwitchableRom => ROM_BANK_SIZE,
            _ => RAM_REGION_SIZE,
        }
    }

    /// The number of bytes in the region.
    #[verifier::when_used_as_spec(spec_size)]
    pub fn size(self) -> (n: usize)
        ensures
            n == self.spec_size(),
    {
        match self {
            Region::Rom | Region::SwitchableRom => ROM_BANK_SIZE,
            _ => RAM_REGION_SIZE,
        }
    }
}

/// The byte of a cartridge image at offset `at`, or zero where the image is
/// too short to hold one.
pub open spec fn image_byte(image: Seq<u8>, at: int) -> u8 {
    if 0 <= at < image.len() {
        image[at]
    } else {
        0
    }
}

/// The contents of a ROM bank loaded from the 16 KiB of `image` that begin at
/// offset `start`: what the image holds there, zero-filled past its end.
pub open spec fn bank_image(image: Seq<u8>, start: int) -> Seq<u8> {
    Seq::new(ROM_BANK_SIZE as nat, |i: int| image_byte(image, start + i))
}

/// A region of `len` zero bytes.
pub open spec fn zeroed(len: nat) -> Seq<u8> {
    Seq::new(len, |i: int| 0u8)
}

impl Mem {
    /// The contents of a region, as a sequence of bytes.
    pub open spec fn region(&self, region: Region) -> Seq<u8> {
        match region {
            Region::Rom => self.rom@,
            Region::SwitchableRom => self.switchable_rom@,
            Region::VideoRam => self.video_ram@,
            Region::SwitchableRam => self.switchable_ram@,
            Region::InternalRam => self.internal_ram@,
            Region::InternalRamEcho => self.internal_ram_echo@,
            Region::SpriteAttribMem => self.sprite_attrib_mem@,
        }
    }

    /// Reads the byte at `offset` within `region`.
    ///
    /// An offset past the end of the region is a programming error, so the
    /// precondition rules it out.
    pub fn read(&self, region: Region, offset: usize) -> (b: u8)
        requires
            offset < region.size(),
        ensures
            b == self.region(region)[offset as int],
    {
        match region {
            Region::Rom => self.rom[offset],
            Region::SwitchableRom => self.switchable_rom[offset],
            Region::VideoRam => self.video_ram[offset],
            Region::SwitchableRam => self.switchable_ram[offset],
            Region::InternalRam => self.internal_ram[offset],
            Region::InternalRamEcho => self.internal_ram_echo[offset],
            Region::SpriteAttribMem => self.sprite_attrib_mem[offset],
        }
    }
}

/// Fills one ROM bank from the 16 KiB of `image` that begin at `start`.
fn load_bank(image: &[u8], start: usize) -> (bank: [u8; 0x4000])
    requires
        start <= ROM_BANK_SIZE,
    ensures
        bank@ == bank_image(image@, start as int),
{
    let mut bank = [0u8; 0x4000];
    let mut i: usize = 0;
    while i < ROM_BANK_SIZE
        invariant
            i <= ROM_BANK_SIZE,
            start <= ROM_BANK_SIZE,
            forall|k: int| 0 <= k < i ==> bank@[k] == image_byte(image@, start + k),
            forall|k: int| i <= k < ROM_BANK_SIZE ==> bank@[k] == 0,
        decreases ROM_BANK_SIZE - i,
    {
        if start + i < image.len() {
            bank[i] = image[start + i];
        }
        i += 1;
    }
    bank
}

/// Builds the memory image from a cartridge image.
///
/// Only the first 32 KiB of `image` are read. The first 16 KiB go to the fixed
/// ROM bank and the second 16 KiB to the switchable ROM bank; where the image
/// is shorter than that, the rest of the banks is zero. All other regions
/// start out zero.
pub fn init(image: &[u8]) -> (mem: Mem)
    ensures
        mem.rom@ == bank_image(image@, 0),
        mem.switchable_rom@ == bank_image(image@, ROM_BANK_SIZE as int),
        mem.video_ram@ == zeroed(RAM_REGION_SIZE as nat),
        mem.switchable_ram@ == zeroed(RAM_REGION_SIZE as nat),
        mem.internal_ram@ == zeroed(RAM_REGION_SIZE as nat),
        mem.internal_ram_echo@ == zeroed(RAM_REGION_SIZE as nat),
        mem.sprite_attrib_mem@ == zeroed(RAM_REGION_SIZE as nat),
        image@.len() >= 2 * ROM_BANK_SIZE ==> {
            &&& mem.rom@ == image@.subrange(0, ROM_BANK_SIZE as int)
            &&& mem.switchable_rom@ == image@.subrange(ROM_BANK_SIZE as int, 2 * ROM_BANK_SIZE)
        },
{
    Mem {
        rom: load_bank(image, 0),
        switchable_rom: load_bank(image, ROM_BANK_SIZE),
        video_ram: [0; 0x2000],
        switchable_ram: [0; 0x2000],
        internal_ram: [0; 0x2000],
        internal_ram_echo: [0; 0x2000],
        sprite_attrib_mem: [0; 0x2000],
    }
}

} // verus!
