use vstd::prelude::*;

pub mod header;

use crate::cartridge::header::{ConsoleType, Header, Mirroring, TVSystem};

verus! {

pub struct Cartridge;

/// How much a line of a header report matters.
#[derive(Clone, Copy, Debug, PartialEq, Eq, Structural)]
pub enum Level {
    Info,
    Warn,
    Error,
}

/// One line of the report on a cartridge header.
#[derive(Clone, Copy, Debug, PartialEq, Eq)]
pub enum Finding {
    /// The header does not begin with the four bytes of the format.
    BadMagicNumber,
    /// The size of PRG ROM.
    PrgRom { units: u8, kilobytes: usize },
    /// The size of CHR ROM.
    ChrRom { units: u8, kilobytes: usize },
    Mirroring(Mirroring),
    Battery(bool),
    Trainer(bool),
    FourScreen(bool),
    Mapper(u8),
    Console(ConsoleType),
    /// The header is in the NES 2.0 format, which is not supported.
    Nes20Unsupported,
    /// The size of PRG RAM.
    PrgRam { units: u8, kilobytes: usize },
    /// The TV system, where flags 9 and flags 10 agree on it.
    TvSystem(TVSystem),
    /// The TV systems of flags 9 and of flags 10, where they differ.
    TvSystemsDiffer { flag_9: TVSystem, flag_10: TVSystem },
    PrgRamPresent(bool),
    BusConflicts(bool),
}

impl Finding {
    /// How much a finding matters: a header that cannot be used is an error,
    /// one that contradicts itself a warning, the rest is information.
    pub open spec fn level_of(self) -> Level {
        match self {
            Finding::BadMagicNumber => Level::Error,
            Finding::Nes20Unsupported => Level::Error,
            Finding::TvSystemsDiffer { .. } => Level::Warn,
            _ => Level::Info,
        }
    }

    pub fn level(&self) -> (level: Level)
        ensures
            level == self.level_of(),
    {
        match self {
            Finding::BadMagicNumber => Level::Error,
            Finding::Nes20Unsupported => Level::Error,
            Finding::TvSystemsDiffer { .. } => Level::Warn,
            _ => Level::Info,
        }
    }
}

/// The four bytes that a header begins with: "NES" and the MS-DOS end-of-file.
pub open spec fn magic_number() -> Seq<u8> {
    seq![0x4Eu8, 0x45u8, 0x53u8, 0x1Au8]
}

/// The findings on the magic number: none where it is the expected one.
pub open spec fn magic_findings(header: Seq<u8>) -> Seq<Finding> {
    if header.subrange(0, 4) == magic_number() {
        seq![]
    } else {
        seq![Finding::BadMagicNumber]
    }
}

/// The findings on the sizes of the two ROMs, in kilobytes.
pub open spec fn rom_findings(header: Seq<u8>) -> Seq<Finding> {
    seq![
        Finding::PrgRom { units: header[4], kilobytes: (header[4] * 16) as usize },
        Finding::ChrRom { units: header[5], kilobytes: (header[5] * 8) as usize },
    ]
}

/// The findings on flags 6 and on the mapper and the console of flags 7.
pub open spec fn board_findings(header: Seq<u8>) -> Seq<Finding> {
    seq![
        Finding::Mirroring(Mirroring::of_bit(header::bit_at(header[6], 0))),
        Finding::Battery(header::bit_at(header[6], 1)),
        Finding::Trainer(header::bit_at(header[6], 2)),
        Finding::FourScreen(header::bit_at(header[6], 3)),
        Finding::Mapper((16 * (header[7] / 16) + header[6] / 16) as u8),
        Finding::Console(ConsoleType::of_code(header[7] % 4)),
    ]
}

/// The findings on the format: none unless it is NES 2.0.
pub open spec fn format_findings(header: Seq<u8>) -> Seq<Finding> {
    if (header[7] / 4) % 4 == 2 {
        seq![Finding::Nes20Unsupported]
    } else {
        seq![]
    }
}

/// The finding on the TV system: the system, where flags 9 and flags 10
/// agree, and both systems where they do not.
pub open spec fn tv_finding(header: Seq<u8>) -> Finding {
    let flag_9 = TVSystem::of_flag_9(header::bit_at(header[9], 0));
    let flag_10 = TVSystem::of_flag_10(header[10] % 4);
    if flag_9 == flag_10 {
        Finding::TvSystem(flag_10)
    } else {
        Finding::TvSystemsDiffer { flag_9, flag_10 }
    }
}

/// The findings on PRG RAM, the TV system and the rest of flags 10.
pub open spec fn ram_findings(header: Seq<u8>) -> Seq<Finding> {
    seq![
        Finding::PrgRam { units: header[8], kilobytes: (header[8] * 8) as usize },
        tv_finding(header),
        Finding::PrgRamPresent(header::bit_at(header[10], 3)),
        Finding::BusConflicts(header::bit_at(header[10], 4)),
    ]
}

/// The report on a header, line by line.
pub open spec fn findings(header: Seq<u8>) -> Seq<Finding> {
    magic_findings(header) + rom_findings(header) + board_findings(header) + format_findings(
        header,
    ) + ram_findings(header)
}

fn report_magic(header: &Header) -> (report: Vec<Finding>)
    ensures
        report@ == magic_findings(header@),
{
    proof {
        header.lemma_len();
    }
    let mut report: Vec<Finding> = Vec::new();
    let magic = header.magic_number();
    if magic[0] == 0x4E && magic[1] == 0x45 && magic[2] == 0x53 && magic[3] == 0x1A {
        assert(magic@ =~= magic_number());
    } else {
        assert(magic_number()[0] == 0x4E && magic_number()[1] == 0x45 && magic_number()[2] == 0x53
            && magic_number()[3] == 0x1A);
        report.push(Finding::BadMagicNumber);
    }
    report
}

fn report_roms(header: &Header) -> (report: Vec<Finding>)
    ensures
        report@ == rom_findings(header@),
{
    let mut report: Vec<Finding> = Vec::new();
    report.push(
        Finding::PrgRom {
            units: header.prg_rom_units_count(),
            kilobytes: header.prg_rom_size() / 0x400,
        },
    );
    report.push(
        Finding::ChrRom {
            units: header.chr_rom_units_count(),
            kilobytes: header.chr_rom_size() / 0x400,
        },
    );
    assert(report@ =~= rom_findings(header@));
    report
}

fn report_board(header: &Header) -> (report: Vec<Finding>)
    ensures
        report@ == board_findings(header@),
{
    let mut report: Vec<Finding> = Vec::new();
    report.push(Finding::Mirroring(header.mirroring()));
    report.push(Finding::Battery(header.battery()));
    report.push(Finding::Trainer(header.trainer()));
    report.push(Finding::FourScreen(header.four_screen()));
    report.push(Finding::Mapper(header.mapper()));
    report.push(Finding::Console(header.console_type()));
    assert(report@ =~= board_findings(header@));
    report
}

fn report_format(header: &Header) -> (report: Vec<Finding>)
    ensures
        report@ == format_findings(header@),
{
    let mut report: Vec<Finding> = Vec::new();
    if header.nes_2_0() {
        report.push(Finding::Nes20Unsupported);
    }
    assert(report@ =~= format_findings(header@));
    report
}

fn report_ram(header: &Header) -> (report: Vec<Finding>)
    ensures
        report@ == ram_findings(header@),
{
    let mut report: Vec<Finding> = Vec::new();
    report.push(
        Finding::PrgRam {
            units: header.prg_ram_units_count(),
            kilobytes: header.prg_ram_size() / 0x400,
        },
    );
    let flag_9 = header.tv_system_flag_9();
    let flag_10 = header.tv_system_flag_10();
    if flag_9 == flag_10 {
        report.push(Finding::TvSystem(flag_10));
    } else {
        report.push(Finding::TvSystemsDiffer { flag_9, flag_10 });
    }
    report.push(Finding::PrgRamPresent(header.prg_ram()));
    report.push(Finding::BusConflicts(header.bus_conflicts()));
    assert(report@ =~= ram_findings(header@));
    report
}

/// Reports what a header says, line by line, in the order in which a reader
/// is told.
pub fn log_header_info(header: &Header) -> (report: Vec<Finding>)
    ensures
        report@ == findings(header@),
{
    let mut report = report_magic(header);
    let mut roms = report_roms(header);
    report.append(&mut roms);
    let mut board = report_board(header);
    report.append(&mut board);
    let mut format = report_format(header);
    report.append(&mut format);
    let mut ram = report_ram(header);
    report.append(&mut ram);
    report
}

} // verus!
