use vstd::prelude::*;
use vstd::array::array_as_slice;
use vstd::slice::slice_subrange;

verus! {

/// The number of bytes in a cartridge header.
pub const HEADER_SIZE: usize = 16;

const MAGIC_NUMBER_START: usize = 0;
const MAGIC_NUMBER_END: usize = 3;
const PRG_ROM_UNITS_COUNT_OFFSET: usize = 4;
const CHR_ROM_UNITS_COUNT_OFFSET: usize = 5;
const PRG_RAM_UNITS_COUNT_OFFSET: usize = 8;

const FLAGS_6_OFFSET: usize = 6;
const FLAGS_7_OFFSET: usize = 7;
const FLAGS_9_OFFSET: usize = 9;
const FLAGS_10_OFFSET: usize = 10;

const MAPPER_LOWER_BIT_OFFSET: u8 = 4;
const MAPPER_UPPER_BIT_OFFSET: u8 = 0;
const CONSOLE_TYPE_BIT_OFFSET: u8 = 0;
const NES_2_0_BIT_OFFSET: u8 = 2;
const TV_SYSTEM_BIT_OFFSET: u8 = 0;

const MIRRORING_BIT_MASK: u8 = 0b0000_0001;
const BATTERY_BIT_MASK: u8 = 0b0000_0010;
const TRAINER_BIT_MASK: u8 = 0b0000_0100;
const FOUR_SCREEN_BIT_MASK: u8 = 0b0000_1000;
const MAPPER_BIT_MASK: u8 = 0b1111_0000;
const CONSOLE_TYPE_BIT_MASK: u8 = 0b0000_0011;
const NES_2_0_BIT_MASK: u8 = 0b0000_1100;
const TV_SYSTEM_FLAG_9_BIT_MASK: u8 = 0b0000_0001;
const TV_SYSTEM_FLAG_10_BIT_MASK: u8 = 0b0000_0011;
const PRG_RAM_BIT_MASK: u8 = 0b0000_1000;
const BUS_CONFLICTS_BIT_MASK: u8 = 0b0001_0000;

/// The number of bytes in one unit of PRG ROM.
pub const PRG_ROM_UNIT_SIZE: usize = 0x4000;

/// The number of bytes in one unit of CHR ROM.
pub const CHR_ROM_UNIT_SIZE: usize = 0x2000;

/// The number of bytes in one unit of PRG RAM.
pub const PRG_RAM_UNIT_SIZE: usize = 0x2000;

/// Whether the bit at `position`, counted from the least significant one, is set in `byte`.
pub open spec fn bit_at(byte: u8, position: nat) -> bool
    recommends
        position < 8,
{
    (byte as nat / vstd::arithmetic::power2::pow2(position)) % 2 == 1
}

#[derive(Clone, Copy, Debug, PartialEq, Eq, Structural)]
pub enum Mirroring {
    /// Horizontal arrangement (CIRAM A10 = PPU A10)
    Vertical,
    /// Vertical arrangement (CIRAM A10 = PPU A11)
    Horizontal,
}

impl Mirroring {
    /// The mirroring that the mirroring bit of a header stands for.
    pub open spec fn of_bit(bit: bool) -> Mirroring {
        if bit {
            Mirroring::Vertical
        } else {
            Mirroring::Horizontal
        }
    }

    fn new(bit: bool) -> (mirroring: Self)
        ensures
            mirroring == Mirroring::of_bit(bit),
    {
        if bit {
            Self::Vertical
        } else {
            Self::Horizontal
        }
    }

    /// The name of the mirroring, as shown to a reader.
    pub fn name(&self) -> (name: String)
        ensures
            name@ == match self {
                Mirroring::Vertical => "Vertical"@,
                Mirroring::Horizontal => "Horizontal"@,
            },
    {
        match self {
            Mirroring::Vertical => String::from_str("Vertical"),
            Mirroring::Horizontal => String::from_str("Horizontal"),
        }
    }
}

#[derive(Clone, Copy, Debug, PartialEq, Eq, Structural)]
pub enum ConsoleType {
    NintendoEntertainmentSystem,
    NintendoVsSystem,
    NintendoPlaychoise10,
    ExtendedConsoleType,
}

impl ConsoleType {
    /// The console that a two-bit code stands for.
    pub open spec fn of_code(code: u8) -> ConsoleType
        recommends
            code <= 3,
    {
        if code == 0 {
            ConsoleType::NintendoEntertainmentSystem
        } else if code == 1 {
            ConsoleType::NintendoVsSystem
        } else if code == 2 {
            ConsoleType::NintendoPlaychoise10
        } else {
            ConsoleType::ExtendedConsoleType
        }
    }

    fn new(bits: u8) -> (console: Self)
        requires
            bits <= 3,
        ensures
            console == ConsoleType::of_code(bits),
    {
        match bits {
            0 => ConsoleType::NintendoEntertainmentSystem,
            1 => ConsoleType::NintendoVsSystem,
            2 => ConsoleType::NintendoPlaychoise10,
            _ => ConsoleType::ExtendedConsoleType,
        }
    }

    /// The name of the console, as shown to a reader.
    pub fn name(&self) -> (name: String)
        ensures
            name@ == match self {
                ConsoleType::NintendoEntertainmentSystem => "Nintendo Entertainment System/Family Computer"@,
                ConsoleType::NintendoVsSystem => "Nintendo Vs. System"@,
                ConsoleType::NintendoPlaychoise10 => "Nintendo Playchoice 10"@,
                ConsoleType::ExtendedConsoleType => "Extended Console Type"@,
            },
    {
        match self {
            ConsoleType::NintendoEntertainmentSystem => String::from_str(
                "Nintendo Entertainment System/Family Computer",
            ),
            ConsoleType::NintendoVsSystem => String::from_str("Nintendo Vs. System"),
            ConsoleType::NintendoPlaychoise10 => String::from_str("Nintendo Playchoice 10"),
            ConsoleType::ExtendedConsoleType => String::from_str("Extended Console Type"),
        }
    }
}

#[derive(Clone, Copy, Debug, PartialEq, Eq, Structural)]
pub enum TVSystem {
    NTSC,
    PAL,
    DualCompatible,
}

impl TVSystem {
    /// The TV system that the TV system bit of flags 9 stands for.
    pub open spec fn of_flag_9(bit: bool) -> TVSystem {
        if bit {
            TVSystem::PAL
        } else {
            TVSystem::NTSC
        }
    }

    /// The TV system that the two-bit code of flags 10 stands for.
    pub open spec fn of_flag_10(code: u8) -> TVSystem
        recommends
            code <= 3,
    {
        if code == 0 {
            TVSystem::NTSC
        } else if code == 2 {
            TVSystem::PAL
        } else {
            TVSystem::DualCompatible
        }
    }

    fn from_flag_9(bit: bool) -> (system: Self)
        ensures
            system == TVSystem::of_flag_9(bit),
    {
        if bit {
            Self::PAL
        } else {
            Self::NTSC
        }
    }

    fn from_flag_10(bits: u8) -> (system: Self)
        requires
            bits <= 3,
        ensures
            system == TVSystem::of_flag_10(bits),
    {
        match bits {
            0 => TVSystem::NTSC,
            1 => TVSystem::DualCompatible,
            2 => TVSystem::PAL,
            _ => TVSystem::DualCompatible,
        }
    }

    /// The name of the TV system, as shown to a reader.
    pub fn name(&self) -> (name: String)
        ensures
            name@ == match self {
                TVSystem::NTSC => "NTSC"@,
                TVSystem::PAL => "PAL"@,
                TVSystem::DualCompatible => "NTSC and PAL"@,
            },
    {
        match self {
            TVSystem::NTSC => String::from_str("NTSC"),
            TVSystem::PAL => String::from_str("PAL"),
            TVSystem::DualCompatible => String::from_str("NTSC and PAL"),
        }
    }
}

/// The sixteen bytes at the start of a cartridge image.
pub struct Header([u8; HEADER_SIZE]);

impl View for Header {
    type V = Seq<u8>;

    /// The sixteen bytes, in the order of the image.
    closed spec fn view(&self) -> Seq<u8> {
        self.0@
    }
}

impl Header {
    /// A header always holds sixteen bytes.
    pub proof fn lemma_len(&self)
        ensures
            self@.len() == HEADER_SIZE,
    {
    }

    /// Takes the header off the front of `bytes`, if `bytes` holds a whole header.
    pub fn read(bytes: &[u8]) -> (header: Option<Self>)
        ensures
            header is Some <==> bytes@.len() >= HEADER_SIZE,
            header matches Some(h) ==> h@ == bytes@.subrange(0, HEADER_SIZE as int),
    {
        if bytes.len() < HEADER_SIZE {
            return None;
        }
        let mut header = [0u8; HEADER_SIZE];
        let mut i: usize = 0;
        while i < HEADER_SIZE
            invariant
                i <= HEADER_SIZE,
                bytes@.len() >= HEADER_SIZE,
                forall|j: int| 0 <= j < i ==> header@[j] == bytes@[j],
            decreases HEADER_SIZE - i,
        {
            header[i] = bytes[i];
            i += 1;
        }
        assert(header@ =~= bytes@.subrange(0, HEADER_SIZE as int));
        Some(Self(header))
    }

    /// Constant $4E $45 $53 $1A (ASCII "NES" followed by MS-DOS end-of-file)
    pub fn magic_number(&self) -> (magic: &[u8])
        ensures
            magic@ == self@.subrange(0, 4),
    {
        slice_subrange(array_as_slice(&self.0), MAGIC_NUMBER_START, MAGIC_NUMBER_END + 1)
    }

    /// Size of PRG ROM in 16 KB units
    pub fn prg_rom_units_count(&self) -> (count: u8)
        ensures
            count == self@[4],
    {
        self.0[PRG_ROM_UNITS_COUNT_OFFSET]
    }

    pub fn prg_rom_size(&self) -> (size: usize)
        ensures
            size == self@[4] * 0x4000,
    {
        self.prg_rom_units_count() as usize * PRG_ROM_UNIT_SIZE
    }

    /// Size of CHR ROM in 8 KB units (value 0 means the board uses CHR RAM)
    pub fn chr_rom_units_count(&self) -> (count: u8)
        ensures
            count == self@[5],
    {
        self.0[CHR_ROM_UNITS_COUNT_OFFSET]
    }

    pub fn chr_rom_size(&self) -> (size: usize)
        ensures
            size == self@[5] * 0x2000,
    {
        self.chr_rom_units_count() as usize * CHR_ROM_UNIT_SIZE
    }

    fn bit(&self, offset: usize, mask: u8) -> (set: bool)
        requires
            offset < HEADER_SIZE,
        ensures
            set == (self@[offset as int] & mask != 0),
    {
        self.0[offset] & mask != 0
    }

    fn bits(&self, offset: usize, mask: u8, shift: u8) -> (field: u8)
        requires
            offset < HEADER_SIZE,
            shift < 8,
        ensures
            field == (self@[offset as int] & mask) >> shift,
    {
        (self.0[offset] & mask) >> shift
    }

    pub fn mirroring(&self) -> (mirroring: Mirroring)
        ensures
            mirroring == Mirroring::of_bit(bit_at(self@[6], 0)),
    {
        let ghost flags = self@[6];
        assert((flags & 0b0000_0001 != 0) == ((flags as nat / 1) % 2 == 1)) by (bit_vector);
        proof {
            lemma_pow2_small();
        }
        Mirroring::new(self.bit(FLAGS_6_OFFSET, MIRRORING_BIT_MASK))
    }

    /// Cartridge contains battery-backed PRG RAM ($6000-7FFF) or other persistent memory
    pub fn battery(&self) -> (battery: bool)
        ensures
            battery == bit_at(self@[6], 1),
    {
        let ghost flags = self@[6];
        assert((flags & 0b0000_0010 != 0) == ((flags as nat / 2) % 2 == 1)) by (bit_vector);
        proof {
            lemma_pow2_small();
        }
        self.bit(FLAGS_6_OFFSET, BATTERY_BIT_MASK)
    }

    /// 512-byte trainer at $7000-$71FF (stored before PRG data)
    pub fn trainer(&self) -> (trainer: bool)
        ensures
            trainer == bit_at(self@[6], 2),
    {
        let ghost flags = self@[6];
        assert((flags & 0b0000_0100 != 0) == ((flags as nat / 4) % 2 == 1)) by (bit_vector);
        proof {
            lemma_pow2_small();
        }
        self.bit(FLAGS_6_OFFSET, TRAINER_BIT_MASK)
    }

    /// Ignore mirroring control or above mirroring bit; instead provide four-screen VRAM
    pub fn four_screen(&self) -> (four_screen: bool)
        ensures
            four_screen == bit_at(self@[6], 3),
    {
        let ghost flags = self@[6];
        assert((flags & 0b0000_1000 != 0) == ((flags as nat / 8) % 2 == 1)) by (bit_vector);
        proof {
            lemma_pow2_small();
        }
        self.bit(FLAGS_6_OFFSET, FOUR_SCREEN_BIT_MASK)
    }

    fn mapper_lower_nibble(&self) -> (nibble: u8)
        ensures
            nibble == self@[6] / 16,
    {
        let ghost flags = self@[6];
        assert((flags & 0b1111_0000) >> 4u8 == flags / 16) by (bit_vector);
        self.bits(FLAGS_6_OFFSET, MAPPER_BIT_MASK, MAPPER_LOWER_BIT_OFFSET)
    }

    fn mapper_upper_nibble(&self) -> (nibble: u8)
        ensures
            nibble == 16 * (self@[7] / 16),
    {
        let ghost flags = self@[7];
        assert((flags & 0b1111_0000) >> 0u8 == 16 * (flags / 16)) by (bit_vector);
        self.bits(FLAGS_7_OFFSET, MAPPER_BIT_MASK, MAPPER_UPPER_BIT_OFFSET)
    }

    /// The mapper number: its upper four bits are those of flags 7, its lower
    /// four bits are the upper four bits of flags 6.
    pub fn mapper(&self) -> (mapper: u8)
        ensures
            mapper == 16 * (self@[7] / 16) + self@[6] / 16,
    {
        let lower = self.mapper_lower_nibble();
        let upper = self.mapper_upper_nibble();
        let ghost low = self@[6];
        let ghost high = self@[7];
        assert((low / 16) | (16 * (high / 16)) as u8 == 16 * (high / 16) + low / 16) by (bit_vector);
        lower | upper
    }

    pub fn console_type(&self) -> (console: ConsoleType)
        ensures
            console == ConsoleType::of_code(self@[7] % 4),
    {
        let ghost flags = self@[7];
        assert((flags & 0b0000_0011) >> 0u8 == flags % 4) by (bit_vector);
        ConsoleType::new(
            self.bits(FLAGS_7_OFFSET, CONSOLE_TYPE_BIT_MASK, CONSOLE_TYPE_BIT_OFFSET),
        )
    }

    /// NES 2.0 is a more recent extension to the format that allows more flexibility
    /// in ROM and RAM size, among other things.
    pub fn nes_2_0(&self) -> (nes_2_0: bool)
        ensures
            nes_2_0 == ((self@[7] / 4) % 4 == 2),
    {
        let ghost flags = self@[7];
        assert((flags & 0b0000_1100) >> 2u8 == (flags / 4) % 4) by (bit_vector);
        self.bits(FLAGS_7_OFFSET, NES_2_0_BIT_MASK, NES_2_0_BIT_OFFSET) == 2
    }

    /// Size of PRG RAM in 8 KB units (Value 0 infers 8 KB for compatibility)
    pub fn prg_ram_units_count(&self) -> (count: u8)
        ensures
            count == self@[8],
    {
        self.0[PRG_RAM_UNITS_COUNT_OFFSET]
    }

    pub fn prg_ram_size(&self) -> (size: usize)
        ensures
            size == self@[8] * 0x2000,
    {
        self.prg_ram_units_count() as usize * PRG_RAM_UNIT_SIZE
    }

    pub fn tv_system_flag_9(&self) -> (system: TVSystem)
        ensures
            system == TVSystem::of_flag_9(bit_at(self@[9], 0)),
    {
        let ghost flags = self@[9];
        assert((flags & 0b0000_0001 != 0) == ((flags as nat / 1) % 2 == 1)) by (bit_vector);
        proof {
            lemma_pow2_small();
        }
        TVSystem::from_flag_9(self.bit(FLAGS_9_OFFSET, TV_SYSTEM_FLAG_9_BIT_MASK))
    }

    pub fn tv_system_flag_10(&self) -> (system: TVSystem)
        ensures
            system == TVSystem::of_flag_10(self@[10] % 4),
    {
        let ghost flags = self@[10];
        assert((flags & 0b0000_0011) >> 0u8 == flags % 4) by (bit_vector);
        TVSystem::from_flag_10(
            self.bits(FLAGS_10_OFFSET, TV_SYSTEM_FLAG_10_BIT_MASK, TV_SYSTEM_BIT_OFFSET),
        )
    }

    /// PRG RAM ($6000-$7FFF)
    pub fn prg_ram(&self) -> (prg_ram: bool)
        ensures
            prg_ram == bit_at(self@[10], 3),
    {
        let ghost flags = self@[10];
        assert((flags & 0b0000_1000 != 0) == ((flags as nat / 8) % 2 == 1)) by (bit_vector);
        proof {
            lemma_pow2_small();
        }
        self.bit(FLAGS_10_OFFSET, PRG_RAM_BIT_MASK)
    }

    pub fn bus_conflicts(&self) -> (bus_conflicts: bool)
        ensures
            bus_conflicts == bit_at(self@[10], 4),
    {
        let ghost flags = self@[10];
        assert((flags & 0b0001_0000 != 0) == ((flags as nat / 16) % 2 == 1)) by (bit_vector);
        proof {
            lemma_pow2_small();
        }
        self.bit(FLAGS_10_OFFSET, BUS_CONFLICTS_BIT_MASK)
    }
}

/// The first few powers of two.
proof fn lemma_pow2_small()
    ensures
        vstd::arithmetic::power2::pow2(0) == 1,
        vstd::arithmetic::power2::pow2(1) == 2,
        vstd::arithmetic::power2::pow2(2) == 4,
        vstd::arithmetic::power2::pow2(3) == 8,
        vstd::arithmetic::power2::pow2(4) == 16,
{
    vstd::arithmetic::power2::lemma2_to64();
}

} // verus!
