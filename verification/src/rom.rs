//! Reader for the iNES cartridge container: a 16-byte header, then an
//! optional trainer, the PRG ROM, an optional CHR ROM and an optional
//! PlayChoice instruction ROM.

use vstd::prelude::*;
use vstd::slice::slice_subrange;

verus! {

/// Length of the header in bytes.
pub const HEADER_LEN: usize = 16;

/// Length of a trainer block in bytes.
pub const TRAINER_LEN: usize = 512;

/// Length of one unit of PRG ROM in bytes.
pub const PRG_ROM_UNIT: usize = 16384;

/// Length of one unit of CHR ROM in bytes.
pub const CHR_ROM_UNIT: usize = 8192;

/// Length of the PlayChoice instruction ROM in bytes.
pub const PLAY_CHOICE_INST_ROM_LEN: usize = 8192;

/// Why an input is no iNES image.
#[derive(Debug, Clone, Copy, PartialEq, Eq, Structural)]
pub enum ParseError {
    /// The input ends before the part being read is complete.
    Incomplete,
    /// The input does not start with `N`, `E`, `S`, `0x1A`.
    BadMagic,
    /// One of the last five bytes of the header is not zero.
    NonZeroReserved,
}

/// Arrangement of the name tables.
#[derive(Debug, Clone, Copy, PartialEq, Eq, Structural)]
pub enum Mirroring {
    Horizontal,
    Vertical,
}

/// Television standard.
#[derive(Debug, Clone, Copy, PartialEq, Eq, Structural)]
pub enum TvSystem {
    NTSC,
    PAL,
}

/// Byte 6 of the header.
#[derive(Debug, Clone, Copy, PartialEq, Eq, Structural)]
pub struct Flag6 {
    pub mirroring: Mirroring,
    pub contains_battery_backed_prg_ram: bool,
    pub has_trainer: bool,
    pub igore_mirroring_control: bool,
    pub lower_nybble_of_mapper_number: u8,
}

/// Byte 7 of the header.
#[derive(Debug, Clone, Copy, PartialEq, Eq, Structural)]
pub struct Flag7 {
    pub vs_unisystem: bool,
    pub has_play_choice_10: bool,
    pub is_nes_2_0: bool,
    pub upper_nybble_of_mapper_numbe: u8,
}

/// Byte 9 of the header.
#[derive(Debug, Clone, Copy, PartialEq, Eq, Structural)]
pub struct Flag9 {
    pub tv_system: TvSystem,
}

/// The header of an image. Byte 10 is read and ignored.
#[derive(Debug, Clone, Copy, PartialEq, Eq, Structural)]
pub struct Header {
    /// Size of the PRG ROM in units of 16 KiB.
    pub prg_rom_size: u8,
    /// Size of the CHR ROM in units of 8 KiB; 0 if there is none.
    pub chr_rom_size: u8,
    pub flag6: Flag6,
    pub flag7: Flag7,
    /// Size of the PRG RAM.
    pub prg_ram_size: u8,
    pub flag9: Flag9,
}

/// An image: the header and the parts that it announces, each a slice of
/// the input.
#[derive(Debug)]
pub struct INes<'n> {
    pub header: Header,
    pub trainer: Option<&'n [u8]>,
    pub prg_rom_data: &'n [u8],
    pub chr_rom_data: Option<&'n [u8]>,
    pub play_choice_inst_rom: Option<&'n [u8]>,
}

/// Mathematical model of an image: the parts as sequences of bytes.
pub struct INesData {
    pub header: Header,
    pub trainer: Option<Seq<u8>>,
    pub prg_rom_data: Seq<u8>,
    pub chr_rom_data: Option<Seq<u8>>,
    pub play_choice_inst_rom: Option<Seq<u8>>,
}

/// The bytes of an optional slice.
pub open spec fn spec_bytes(part: Option<&[u8]>) -> Option<Seq<u8>> {
    match part {
        Some(bytes) => Some(bytes@),
        None => None,
    }
}

impl<'n> View for INes<'n> {
    type V = INesData;

    open spec fn view(&self) -> INesData {
        INesData {
            header: self.header,
            trainer: spec_bytes(self.trainer),
            prg_rom_data: self.prg_rom_data@,
            chr_rom_data: spec_bytes(self.chr_rom_data),
            play_choice_inst_rom: spec_bytes(self.play_choice_inst_rom),
        }
    }
}

/// The four bytes that every image starts with.
pub open spec fn spec_magic() -> Seq<u8> {
    seq![0x4Eu8, 0x45u8, 0x53u8, 0x1Au8]
}

/// Byte 6 of the header: bit 0 is the mirroring, bits 1 to 3 are three
/// switches, and the high four bits are the low nybble of the mapper
/// number.
pub open spec fn spec_flag6(data: u8) -> Flag6 {
    Flag6 {
        mirroring: if data % 2 == 0 {
            Mirroring::Horizontal
        } else {
            Mirroring::Vertical
        },
        contains_battery_backed_prg_ram: (data / 2) % 2 == 1,
        has_trainer: (data / 4) % 2 == 1,
        igore_mirroring_control: (data / 8) % 2 == 1,
        lower_nybble_of_mapper_number: data / 16,
    }
}

/// Byte 7 of the header: bits 0 and 1 are two switches, bits 2 and 3 hold
/// binary 10 in the NES 2.0 format, and the high four bits are the high
/// nybble of the mapper number, kept in their place.
pub open spec fn spec_flag7(data: u8) -> Flag7 {
    Flag7 {
        vs_unisystem: data % 2 == 1,
        has_play_choice_10: (data / 2) % 2 == 1,
        is_nes_2_0: (data / 4) % 4 == 2,
        upper_nybble_of_mapper_numbe: ((data / 16) * 16) as u8,
    }
}

/// Byte 9 of the header: bit 0 is the television standard.
pub open spec fn spec_flag9(data: u8) -> Flag9 {
    Flag9 {
        tv_system: if data % 2 == 0 {
            TvSystem::NTSC
        } else {
            TvSystem::PAL
        },
    }
}

/// Whether `input`, as far as it goes, has a byte that differs from the
/// byte of `expected` at the same place.
pub open spec fn spec_differs(input: Seq<u8>, expected: Seq<u8>) -> bool {
    exists|i: int| 0 <= i < expected.len() && i < input.len() && input[i] != expected[i]
}

/// Whether the input, as far as it goes, disagrees with the magic bytes.
pub open spec fn spec_bad_magic(input: Seq<u8>) -> bool {
    spec_differs(input, spec_magic())
}

/// Whether one of the reserved bytes 11 to 15, as far as the input goes, is
/// not zero.
pub open spec fn spec_non_zero_reserved(input: Seq<u8>) -> bool {
    exists|i: int| 11 <= i < 16 && i < input.len() && input[i] != 0
}

/// The header at the start of `input`. The parts are checked in their
/// order, so a wrong byte is reported wherever the input reaches it, and
/// an input without a wrong byte that ends early is incomplete.
pub open spec fn spec_parse_header(input: Seq<u8>) -> Result<Header, ParseError> {
    if spec_bad_magic(input) {
        Err(ParseError::BadMagic)
    } else if input.len() < 11 {
        Err(ParseError::Incomplete)
    } else if spec_non_zero_reserved(input) {
        Err(ParseError::NonZeroReserved)
    } else if input.len() < 16 {
        Err(ParseError::Incomplete)
    } else {
        Ok(
            Header {
                prg_rom_size: input[4],
                chr_rom_size: input[5],
                flag6: spec_flag6(input[6]),
                flag7: spec_flag7(input[7]),
                prg_ram_size: input[8],
                flag9: spec_flag9(input[9]),
            },
        )
    }
}

/// Offset of the PRG ROM: after the header and the trainer, if there is
/// one.
pub open spec fn spec_prg_rom_start(header: Header) -> int {
    HEADER_LEN + if header.flag6.has_trainer {
        TRAINER_LEN as int
    } else {
        0int
    }
}

/// Offset of the CHR ROM: after the PRG ROM.
pub open spec fn spec_chr_rom_start(header: Header) -> int {
    spec_prg_rom_start(header) + PRG_ROM_UNIT * header.prg_rom_size
}

/// Offset of the PlayChoice instruction ROM: after the CHR ROM.
pub open spec fn spec_play_choice_start(header: Header) -> int {
    spec_chr_rom_start(header) + CHR_ROM_UNIT * header.chr_rom_size
}

/// Length of the whole image.
pub open spec fn spec_image_len(header: Header) -> int {
    spec_play_choice_start(header) + if header.flag7.has_play_choice_10 {
        PLAY_CHOICE_INST_ROM_LEN as int
    } else {
        0int
    }
}

/// The image at the start of `input`, and the bytes that follow it.
pub open spec fn spec_parse_ines(input: Seq<u8>) -> Result<(Seq<u8>, INesData), ParseError> {
    match spec_parse_header(input) {
        Err(e) => Err(e),
        Ok(header) => if input.len() < spec_image_len(header) {
            Err(ParseError::Incomplete)
        } else {
            Ok(
                (
                    input.subrange(spec_image_len(header), input.len() as int),
                    INesData {
                        header,
                        trainer: if header.flag6.has_trainer {
                            Some(input.subrange(HEADER_LEN as int, spec_prg_rom_start(header)))
                        } else {
                            None
                        },
                        prg_rom_data: input.subrange(
                            spec_prg_rom_start(header),
                            spec_chr_rom_start(header),
                        ),
                        chr_rom_data: if header.chr_rom_size != 0 {
                            Some(
                                input.subrange(
                                    spec_chr_rom_start(header),
                                    spec_play_choice_start(header),
                                ),
                            )
                        } else {
                            None
                        },
                        play_choice_inst_rom: if header.flag7.has_play_choice_10 {
                            Some(
                                input.subrange(
                                    spec_play_choice_start(header),
                                    spec_image_len(header),
                                ),
                            )
                        } else {
                            None
                        },
                    },
                ),
            )
        },
    }
}

/// The bytes of an optional part, none if the part is absent.
pub open spec fn spec_part(part: Option<Seq<u8>>) -> Seq<u8> {
    match part {
        Some(bytes) => bytes,
        None => Seq::empty(),
    }
}

/// The parts of an image lie in the input one after the other, without gap
/// or overlap: the header, the trainer, the PRG ROM, the CHR ROM, the
/// PlayChoice instruction ROM and what follows the image make up the input.
/// Each part has the length that the header announces.
pub proof fn lemma_parts_make_up_the_input(input: Seq<u8>)
    requires
        spec_parse_ines(input) is Ok,
    ensures
        ({
            let (rest, ines) = spec_parse_ines(input)->Ok_0;
            &&& input == input.subrange(0, HEADER_LEN as int) + spec_part(ines.trainer)
                + ines.prg_rom_data + spec_part(ines.chr_rom_data) + spec_part(
                ines.play_choice_inst_rom,
            ) + rest
            &&& spec_parse_header(input) == Ok::<Header, ParseError>(ines.header)
            &&& ines.trainer is Some == ines.header.flag6.has_trainer
            &&& spec_part(ines.trainer).len() == if ines.header.flag6.has_trainer {
                TRAINER_LEN as int
            } else {
                0
            }
            &&& ines.prg_rom_data.len() == PRG_ROM_UNIT * ines.header.prg_rom_size
            &&& ines.chr_rom_data is Some == (ines.header.chr_rom_size != 0)
            &&& spec_part(ines.chr_rom_data).len() == CHR_ROM_UNIT * ines.header.chr_rom_size
            &&& ines.play_choice_inst_rom is Some == ines.header.flag7.has_play_choice_10
            &&& spec_part(ines.play_choice_inst_rom).len() == if ines.play_choice_inst_rom is Some {
                PLAY_CHOICE_INST_ROM_LEN as int
            } else {
                0
            }
        }),
{
    let (rest, ines) = spec_parse_ines(input)->Ok_0;
    assert(input =~= input.subrange(0, HEADER_LEN as int) + spec_part(ines.trainer)
        + ines.prg_rom_data + spec_part(ines.chr_rom_data) + spec_part(ines.play_choice_inst_rom)
        + rest);
}

/// Decodes byte 6 of the header.
pub fn flag6(data: u8) -> (flag6: Flag6)
    ensures
        flag6 == spec_flag6(data),
{
    assert(((data & 0b00000001) == 0b0) == (data % 2 == 0) && ((data & 0b00000010) != 0b0) == ((data
        / 2) % 2 == 1) && ((data & 0b00000100) != 0b0) == ((data / 4) % 2 == 1) && ((data
        & 0b00001000) != 0b0) == ((data / 8) % 2 == 1) && data >> 4 == data / 16) by (bit_vector);
    let mirroring = if data & 0b00000001 == 0b0 {
        Mirroring::Horizontal
    } else {
        Mirroring::Vertical
    };
    Flag6 {
        mirroring: mirroring,
        contains_battery_backed_prg_ram: (data & 0b00000010) != 0b0,
        has_trainer: (data & 0b00000100) != 0b0,
        igore_mirroring_control: (data & 0b00001000) != 0b0,
        lower_nybble_of_mapper_number: data >> 4,
    }
}

/// Decodes byte 7 of the header.
pub fn flag7(data: u8) -> (flag7: Flag7)
    ensures
        flag7 == spec_flag7(data),
{
    assert(((data & 0b00000001) != 0b0) == (data % 2 == 1) && ((data & 0b00000010) != 0b0) == ((data
        / 2) % 2 == 1) && ((data & 0b00001100) == 0b1000) == ((data / 4) % 4 == 2) && (data >> 4)
        << 4 == (data / 16) * 16) by (bit_vector);
    Flag7 {
        vs_unisystem: (data & 0b00000001) != 0b0,
        has_play_choice_10: (data & 0b00000010) != 0b0,
        is_nes_2_0: (data & 0b00001100) == 0b1000,
        upper_nybble_of_mapper_numbe: (data >> 4) << 4,
    }
}

/// Decodes byte 9 of the header.
pub fn flag9(data: u8) -> (flag9: Flag9)
    ensures
        flag9 == spec_flag9(data),
{
    assert(((data & 0b00000001) == 0b0) == (data % 2 == 0)) by (bit_vector);
    let tv_system = if data & 0b00000001 == 0b0 {
        TvSystem::NTSC
    } else {
        TvSystem::PAL
    };
    Flag9 { tv_system: tv_system }
}

/// Reads one byte: the byte and the rest of the input, or `Incomplete` if
/// the input is empty.
fn le_u8(input: &[u8]) -> (r: Result<(&[u8], u8), ParseError>)
    ensures
        match r {
            Ok((rest, byte)) => input@.len() > 0 && byte == input@[0] && rest@ == input@.subrange(
                1,
                input@.len() as int,
            ),
            Err(e) => input@.len() == 0 && e == ParseError::Incomplete,
        },
{
    if input.len() < 1 {
        Err(ParseError::Incomplete)
    } else {
        Ok((slice_subrange(input, 1, input.len()), input[0]))
    }
}

/// Reads `count` bytes: the bytes and the rest of the input, or
/// `Incomplete` if the input is shorter.
fn take(input: &[u8], count: usize) -> (r: Result<(&[u8], &[u8]), ParseError>)
    ensures
        match r {
            Ok((rest, taken)) => input@.len() >= count && taken@ == input@.subrange(
                0,
                count as int,
            ) && rest@ == input@.subrange(count as int, input@.len() as int),
            Err(e) => input@.len() < count && e == ParseError::Incomplete,
        },
{
    if input.len() < count {
        Err(ParseError::Incomplete)
    } else {
        Ok((slice_subrange(input, count, input.len()), slice_subrange(input, 0, count)))
    }
}

/// Reads byte 6 of the header from the start of `input`.
pub fn parse_flag6(input: &[u8]) -> (r: Result<(&[u8], Flag6), ParseError>)
    ensures
        match r {
            Ok((rest, flag)) => input@.len() > 0 && flag == spec_flag6(input@[0]) && rest@
                == input@.subrange(1, input@.len() as int),
            Err(e) => input@.len() == 0 && e == ParseError::Incomplete,
        },
{
    match le_u8(input) {
        Ok((rest, data)) => Ok((rest, flag6(data))),
        Err(e) => Err(e),
    }
}

/// Reads byte 7 of the header from the start of `input`.
pub fn parse_flag7(input: &[u8]) -> (r: Result<(&[u8], Flag7), ParseError>)
    ensures
        match r {
            Ok((rest, flag)) => input@.len() > 0 && flag == spec_flag7(input@[0]) && rest@
                == input@.subrange(1, input@.len() as int),
            Err(e) => input@.len() == 0 && e == ParseError::Incomplete,
        },
{
    match le_u8(input) {
        Ok((rest, data)) => Ok((rest, flag7(data))),
        Err(e) => Err(e),
    }
}

/// Reads byte 9 of the header from the start of `input`.
pub fn parse_flag9(input: &[u8]) -> (r: Result<(&[u8], Flag9), ParseError>)
    ensures
        match r {
            Ok((rest, flag)) => input@.len() > 0 && flag == spec_flag9(input@[0]) && rest@
                == input@.subrange(1, input@.len() as int),
            Err(e) => input@.len() == 0 && e == ParseError::Incomplete,
        },
{
    match le_u8(input) {
        Ok((rest, data)) => Ok((rest, flag9(data))),
        Err(e) => Err(e),
    }
}

/// Checks that the input starts with the bytes of `expected` and returns
/// the rest. A byte of the input that differs is reported as `mismatch`;
/// an input that agrees as far as it goes but ends early is incomplete.
fn tag<'a>(input: &'a [u8], expected: &[u8], mismatch: ParseError) -> (r: Result<
    &'a [u8],
    ParseError,
>)
    ensures
        match r {
            Ok(rest) => !spec_differs(input@, expected@) && expected@.len() <= input@.len() && rest@
                == input@.subrange(expected@.len() as int, input@.len() as int),
            Err(e) => if spec_differs(input@, expected@) {
                e == mismatch
            } else {
                expected@.len() > input@.len() && e == ParseError::Incomplete
            },
        },
{
    let mut i: usize = 0;
    while i < expected.len()
        invariant
            i <= expected@.len(),
            i <= input@.len(),
            forall|j: int| 0 <= j < i ==> input@[j] == expected@[j],
        decreases expected@.len() - i,
    {
        if i >= input.len() {
            return Err(ParseError::Incomplete);
        }
        if input[i] != expected[i] {
            return Err(mismatch);
        }
        i += 1;
    }
    Ok(slice_subrange(input, expected.len(), input.len()))
}

/// Reads the 16-byte header from the start of `input` and returns it with
/// the rest of the input.
pub fn parse_header(input: &[u8]) -> (r: Result<(&[u8], Header), ParseError>)
    ensures
        match r {
            Ok((rest, header)) => spec_parse_header(input@) == Ok::<Header, ParseError>(header)
                && rest@ == input@.subrange(16, input@.len() as int),
            Err(e) => spec_parse_header(input@) == Err::<Header, ParseError>(e),
        },
{
    let magic: [u8; 4] = [0x4E, 0x45, 0x53, 0x1A];
    let zeros: [u8; 5] = [0x00, 0x00, 0x00, 0x00, 0x00];
    let rest = match tag(input, magic.as_slice(), ParseError::BadMagic) {
        Ok(rest) => rest,
        Err(e) => {
            return Err(e);
        },
    };
    let (rest, prg_rom_size) = match le_u8(rest) {
        Ok(r) => r,
        Err(e) => {
            return Err(e);
        },
    };
    let (rest, chr_rom_size) = match le_u8(rest) {
        Ok(r) => r,
        Err(e) => {
            return Err(e);
        },
    };
    let (rest, flag6) = match parse_flag6(rest) {
        Ok(r) => r,
        Err(e) => {
            return Err(e);
        },
    };
    let (rest, flag7) = match parse_flag7(rest) {
        Ok(r) => r,
        Err(e) => {
            return Err(e);
        },
    };
    let (rest, prg_ram_size) = match le_u8(rest) {
        Ok(r) => r,
        Err(e) => {
            return Err(e);
        },
    };
    let (rest, flag9) = match parse_flag9(rest) {
        Ok(r) => r,
        Err(e) => {
            return Err(e);
        },
    };
    let (rest, _flag10) = match le_u8(rest) {
        Ok(r) => r,
        Err(e) => {
            return Err(e);
        },
    };
    proof {
        assert(spec_differs(rest@, zeros@) <==> spec_non_zero_reserved(input@)) by {
            if spec_differs(rest@, zeros@) {
                let i = choose|i: int| 0 <= i < 5 && i < rest@.len() && rest@[i] != zeros@[i];
                assert(input@[i + 11] != 0);
            }
            if spec_non_zero_reserved(input@) {
                let i = choose|i: int| 11 <= i < 16 && i < input@.len() && input@[i] != 0;
                assert(rest@[i - 11] != zeros@[i - 11]);
            }
        }
    }
    let rest = match tag(rest, zeros.as_slice(), ParseError::NonZeroReserved) {
        Ok(rest) => rest,
        Err(e) => {
            return Err(e);
        },
    };
    Ok(
        (
            rest,
            Header {
                prg_rom_size: prg_rom_size,
                chr_rom_size: chr_rom_size,
                flag6: flag6,
                flag7: flag7,
                prg_ram_size: prg_ram_size,
                flag9: flag9,
            },
        ),
    )
}

/// Reads `count` bytes if `present` holds, and nothing otherwise.
fn take_if(input: &[u8], present: bool, count: usize) -> (r: Result<
    (&[u8], Option<&[u8]>),
    ParseError,
>)
    ensures
        match r {
            Ok((rest, taken)) => if present {
                input@.len() >= count && spec_bytes(taken) == Some(
                    input@.subrange(0, count as int),
                ) && rest@ == input@.subrange(count as int, input@.len() as int)
            } else {
                taken is None && rest@ == input@
            },
            Err(e) => present && input@.len() < count && e == ParseError::Incomplete,
        },
{
    if present {
        match take(input, count) {
            Ok((rest, taken)) => Ok((rest, Some(taken))),
            Err(e) => Err(e),
        }
    } else {
        Ok((input, None))
    }
}

/// Reads an image from the start of `input`: the header, then the parts
/// that the header announces, in their order. Returns the image and the
/// bytes that follow it. An input that ends before the last announced
/// part is complete is reported as `Incomplete`.
pub fn parse_ines<'n>(input: &'n [u8]) -> (r: Result<(&'n [u8], INes<'n>), ParseError>)
    ensures
        match r {
            Ok((rest, ines)) => spec_parse_ines(input@) == Ok::<(Seq<u8>, INesData), ParseError>(
                (rest@, ines@),
            ),
            Err(e) => spec_parse_ines(input@) == Err::<(Seq<u8>, INesData), ParseError>(e),
        },
{
    let (after_header, header) = match parse_header(input) {
        Ok(r) => r,
        Err(e) => {
            return Err(e);
        },
    };
    let (after_trainer, trainer) = match take_if(
        after_header,
        header.flag6.has_trainer,
        TRAINER_LEN,
    ) {
        Ok(r) => r,
        Err(e) => {
            return Err(e);
        },
    };
    let (after_prg_rom, prg_rom_data) = match take(
        after_trainer,
        PRG_ROM_UNIT * header.prg_rom_size as usize,
    ) {
        Ok(r) => r,
        Err(e) => {
            return Err(e);
        },
    };
    let (after_chr_rom, chr_rom_data) = match take_if(
        after_prg_rom,
        header.chr_rom_size != 0,
        CHR_ROM_UNIT * header.chr_rom_size as usize,
    ) {
        Ok(r) => r,
        Err(e) => {
            return Err(e);
        },
    };
    let (rest, play_choice_inst_rom) = match take_if(
        after_chr_rom,
        header.flag7.has_play_choice_10,
        PLAY_CHOICE_INST_ROM_LEN,
    ) {
        Ok(r) => r,
        Err(e) => {
            return Err(e);
        },
    };
    let ines = INes {
        header: header,
        trainer: trainer,
        prg_rom_data: prg_rom_data,
        chr_rom_data: chr_rom_data,
        play_choice_inst_rom: play_choice_inst_rom,
    };
    proof {
        let len = input@.len() as int;
        assert(rest@ =~= input@.subrange(spec_image_len(header), len));
        let expected = spec_parse_ines(input@)->Ok_0.1;
        assert(ines@.prg_rom_data =~= expected.prg_rom_data);
        if header.flag6.has_trainer {
            assert(ines@.trainer->Some_0 =~= expected.trainer->Some_0);
        }
        if header.chr_rom_size != 0 {
            assert(ines@.chr_rom_data->Some_0 =~= expected.chr_rom_data->Some_0);
        }
        if header.flag7.has_play_choice_10 {
            assert(ines@.play_choice_inst_rom->Some_0 =~= expected.play_choice_inst_rom->Some_0);
        }
    }
    Ok((rest, ines))
}

} // verus!
