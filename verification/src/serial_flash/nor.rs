//! Serial NOR configuration blocks and fields.
//!
//! The boot ROM reads a 512-byte configuration block straight out of flash
//! to decide how to bring up an external serial NOR device. The block embeds
//! the FlexSPI memory-layout primitive at byte 0 and appends this module's
//! own fields at fixed offsets; the ROM does no parsing, so the byte layout
//! stated here is the whole contract. Every builder operation pins the exact
//! byte image of its result, and [`lemma_record_size`] proves, once and for
//! all records, that the image is exactly [`RECORD_SIZE`] bytes.

use vstd::prelude::*;
use crate::flexspi;
use crate::flexspi::DEVICE_TYPE_OFFSET;
use crate::flexspi::MEM_CFG_LEN;
use crate::layout::le32;
use crate::layout::lemma_le32_zero;
use crate::layout::push_le32;
use crate::layout::push_zeroed;
use crate::layout::zeroed;

verus! {

/// Total size, in bytes, of a serial NOR configuration block: mandated by
/// the boot ROM, which reads the block as a raw memory overlay.
pub const RECORD_SIZE: usize = 512;

/// Byte offset of the page-size field.
pub const PAGE_SIZE_OFFSET: usize = 448;

/// Byte offset of the sector-size field.
pub const SECTOR_SIZE_OFFSET: usize = 452;

/// Byte offset of the `ipCmdSerialClkFreq` field.
pub const SERIAL_CLK_FREQ_OFFSET: usize = 456;

/// Length of the reserved, all-zero tail that pads the block out to
/// [`RECORD_SIZE`] bytes.
pub const RESERVED_LEN: usize = 52;

/// The device-type discriminant value meaning "serial NOR".
pub const SERIAL_NOR_DEVICE_TYPE: u8 = 1;

/// The chip family a configuration block is built for.
///
/// The family decides which serial clock frequency tiers exist and what
/// their numeric encodings are; it is fixed once per build configuration.
#[derive(Debug, Clone, Copy, PartialEq, Eq, Structural)]
pub enum ChipFamily {
    Imxrt1010,
    Imxrt1060,
    Imxrt1064,
    Imxrt500,
}

/// `ipCmdSerialClkFreq` field for the serial NOR configuration block.
///
/// A closed set of named frequency tiers. Which tiers a chip family offers,
/// and the numeric code of each, follows the family's documented table: see
/// [`spec_clock_encoding`].
#[derive(Debug, Clone, Copy, PartialEq, Eq, Structural)]
pub enum SerialClockFrequency {
    /// No change: keep the current serial clock unchanged.
    NoChange,
    MHz30,
    MHz50,
    MHz60,
    MHz75,
    MHz80,
    MHz100,
    MHz120,
    MHz133,
    MHz166,
}

/// The documented per-family frequency table: the numeric code of each
/// frequency tier, or `None` where the family does not offer the tier.
///
/// "No change" is always code 0; the codes of the remaining tiers rise
/// monotonically through each family's table, closing the gaps left by the
/// tiers the family skips (the 1010 family skips 120 MHz and 166 MHz, the
/// 500 family skips 75 MHz).
pub open spec fn spec_clock_encoding(
    family: ChipFamily,
    freq: SerialClockFrequency,
) -> Option<u8> {
    match freq {
        SerialClockFrequency::NoChange => Some(0u8),
        SerialClockFrequency::MHz30 => Some(1u8),
        SerialClockFrequency::MHz50 => Some(2u8),
        SerialClockFrequency::MHz60 => Some(3u8),
        SerialClockFrequency::MHz75 => match family {
            ChipFamily::Imxrt500 => None,
            _ => Some(4u8),
        },
        SerialClockFrequency::MHz80 => match family {
            ChipFamily::Imxrt500 => Some(4u8),
            _ => Some(5u8),
        },
        SerialClockFrequency::MHz100 => match family {
            ChipFamily::Imxrt500 => Some(5u8),
            _ => Some(6u8),
        },
        SerialClockFrequency::MHz120 => match family {
            ChipFamily::Imxrt500 => Some(6u8),
            ChipFamily::Imxrt1010 => None,
            _ => Some(7u8),
        },
        SerialClockFrequency::MHz133 => match family {
            ChipFamily::Imxrt500 => Some(7u8),
            ChipFamily::Imxrt1010 => Some(7u8),
            _ => Some(8u8),
        },
        SerialClockFrequency::MHz166 => match family {
            ChipFamily::Imxrt500 => Some(8u8),
            ChipFamily::Imxrt1010 => None,
            _ => Some(9u8),
        },
    }
}

impl SerialClockFrequency {
    /// Whether `family` offers this frequency tier at all.
    pub fn supported(self, family: ChipFamily) -> (r: bool)
        ensures
            r == (spec_clock_encoding(family, self) is Some),
    {
        match self {
            SerialClockFrequency::MHz75 => !matches!(family, ChipFamily::Imxrt500),
            SerialClockFrequency::MHz120 | SerialClockFrequency::MHz166 => !matches!(
                family,
                ChipFamily::Imxrt1010,
            ),
            _ => true,
        }
    }

    /// The numeric code of this frequency tier in `family`'s table.
    pub fn encoding(self, family: ChipFamily) -> (r: u8)
        requires
            spec_clock_encoding(family, self) is Some,
        ensures
            Some(r) == spec_clock_encoding(family, self),
    {
        match self {
            SerialClockFrequency::NoChange => 0,
            SerialClockFrequency::MHz30 => 1,
            SerialClockFrequency::MHz50 => 2,
            SerialClockFrequency::MHz60 => 3,
            SerialClockFrequency::MHz75 => 4,
            SerialClockFrequency::MHz80 => match family {
                ChipFamily::Imxrt500 => 4,
                _ => 5,
            },
            SerialClockFrequency::MHz100 => match family {
                ChipFamily::Imxrt500 => 5,
                _ => 6,
            },
            SerialClockFrequency::MHz120 => match family {
                ChipFamily::Imxrt500 => 6,
                _ => 7,
            },
            SerialClockFrequency::MHz133 => match family {
                ChipFamily::Imxrt500 | ChipFamily::Imxrt1010 => 7,
                _ => 8,
            },
            SerialClockFrequency::MHz166 => match family {
                ChipFamily::Imxrt500 => 8,
                _ => 9,
            },
        }
    }
}

/// The byte image `s` with the four bytes at `offset` replaced by the
/// little-endian image of `v`: how every builder step below changes exactly
/// one fixed-offset field and nothing else.
pub open spec fn spec_set_le32(s: Seq<u8>, offset: int, v: u32) -> Seq<u8> {
    s.subrange(0, offset) + le32(v) + s.subrange(offset + 4, s.len() as int)
}

/// A serial NOR configuration block.
///
/// This is the memory that must be placed — by the consuming program's
/// build configuration — at the fixed flash location the boot ROM reads.
/// Its view is the exact [`RECORD_SIZE`]-byte sequence the ROM will see:
/// the embedded memory-layout primitive at byte 0, the page size, sector
/// size and serial clock frequency fields little-endian at their fixed
/// offsets, and an all-zero reserved tail. Unless set by a builder call,
/// every field of a new block is an all-zero bit pattern.
#[derive(Debug, Clone)]
pub struct ConfigurationBlock {
    mem_cfg: flexspi::ConfigurationBlock,
    page_size: u32,
    sector_size: u32,
    ip_cmd_serial_clk_freq: u32,
}

impl View for ConfigurationBlock {
    type V = Seq<u8>;

    closed spec fn view(&self) -> Seq<u8> {
        self.mem_cfg@ + le32(self.page_size) + le32(self.sector_size) + le32(
            self.ip_cmd_serial_clk_freq,
        ) + zeroed(RESERVED_LEN as nat)
    }
}

impl ConfigurationBlock {
    /// A block is well formed when the primitive it embeds is: every
    /// constructor establishes this and every builder step keeps it.
    pub closed spec fn wf(&self) -> bool {
        self.mem_cfg.wf()
    }

    /// Create a new serial NOR configuration block around the given
    /// memory-layout primitive.
    ///
    /// The primitive is embedded byte for byte, except that its device-type
    /// discriminant is forced to [`SERIAL_NOR_DEVICE_TYPE`], whatever value
    /// it held before. Every other field of the block is zero.
    pub fn new(mem_cfg: flexspi::ConfigurationBlock) -> (r: Self)
        requires
            mem_cfg.wf(),
        ensures
            r.wf(),
            r@ == mem_cfg@.update(DEVICE_TYPE_OFFSET as int, SERIAL_NOR_DEVICE_TYPE) + zeroed(
                (RECORD_SIZE - PAGE_SIZE_OFFSET) as nat,
            ),
            r@[DEVICE_TYPE_OFFSET as int] == SERIAL_NOR_DEVICE_TYPE,
            forall|i: int|
                PAGE_SIZE_OFFSET <= i < RECORD_SIZE ==> #[trigger] r@[i] == 0,
            forall|i: int|
                0 <= i < MEM_CFG_LEN && i != DEVICE_TYPE_OFFSET ==> #[trigger] r@[i] == mem_cfg@[i],
    {
        let mem_cfg = mem_cfg.with_device_type(SERIAL_NOR_DEVICE_TYPE);
        let r = ConfigurationBlock {
            mem_cfg,
            page_size: 0,
            sector_size: 0,
            ip_cmd_serial_clk_freq: 0,
        };
        proof {
            lemma_le32_zero();
            assert(r@ =~= mem_cfg@ + zeroed((RECORD_SIZE - PAGE_SIZE_OFFSET) as nat));
        }
        r
    }

    /// Set the serial NOR page size, in bytes.
    ///
    /// No range validation happens here: layout, not device capability, is
    /// this type's contract, and the caller supplies a ROM-legal value.
    pub fn page_size(self, page_size: u32) -> (r: Self)
        requires
            self.wf(),
        ensures
            r.wf(),
            r@ == spec_set_le32(self@, PAGE_SIZE_OFFSET as int, page_size),
    {
        let mut r = self;
        r.page_size = page_size;
        proof {
            assert(r@ =~= spec_set_le32(self@, PAGE_SIZE_OFFSET as int, page_size));
        }
        r
    }

    /// Set the serial NOR sector size, in bytes.
    ///
    /// As with [`Self::page_size`], the value is laid out as given and not
    /// validated against the device's actual limits.
    pub fn sector_size(self, sector_size: u32) -> (r: Self)
        requires
            self.wf(),
        ensures
            r.wf(),
            r@ == spec_set_le32(self@, SECTOR_SIZE_OFFSET as int, sector_size),
    {
        let mut r = self;
        r.sector_size = sector_size;
        proof {
            assert(r@ =~= spec_set_le32(self@, SECTOR_SIZE_OFFSET as int, sector_size));
        }
        r
    }

    /// Set the serial clock frequency to `family`'s numeric code for the
    /// given tier.
    pub fn ip_cmd_serial_clk_freq(
        self,
        family: ChipFamily,
        serial_clock_frequency: SerialClockFrequency,
    ) -> (r: Self)
        requires
            self.wf(),
            spec_clock_encoding(family, serial_clock_frequency) is Some,
        ensures
            r.wf(),
            r@ == spec_set_le32(
                self@,
                SERIAL_CLK_FREQ_OFFSET as int,
                spec_clock_encoding(family, serial_clock_frequency)->0 as u32,
            ),
    {
        let enc = serial_clock_frequency.encoding(family);
        let mut r = self;
        r.ip_cmd_serial_clk_freq = enc as u32;
        proof {
            assert(r@ =~= spec_set_le32(self@, SERIAL_CLK_FREQ_OFFSET as int, enc as u32));
        }
        r
    }

    /// The block's byte image, exactly as the boot ROM will read it.
    pub fn to_bytes(&self) -> (r: Vec<u8>)
        requires
            self.wf(),
        ensures
            r@ == self@,
            r@.len() == RECORD_SIZE,
    {
        let mut out = self.mem_cfg.to_bytes();
        push_le32(&mut out, self.page_size);
        push_le32(&mut out, self.sector_size);
        push_le32(&mut out, self.ip_cmd_serial_clk_freq);
        push_zeroed(&mut out, RESERVED_LEN);
        proof {
            assert(out@ =~= self@);
        }
        out
    }
}

/// The layout invariant: every well-formed configuration block measures
/// exactly [`RECORD_SIZE`] bytes, whatever chain of builder calls produced
/// it. Any drift in a field width or in the reserved tail breaks this proof,
/// and with it the build, before a record can ever reach the boot ROM.
pub proof fn lemma_record_size(cb: &ConfigurationBlock)
    requires
        cb.wf(),
    ensures
        cb@.len() == RECORD_SIZE,
{
}

/// Independent builder steps commute: writing the page-size field and then
/// the sector-size field leaves the same byte image as writing them in the
/// other order, given the same arguments.
pub proof fn lemma_size_setters_commute(s: Seq<u8>, page_size: u32, sector_size: u32)
    requires
        s.len() == RECORD_SIZE,
    ensures
        spec_set_le32(
            spec_set_le32(s, PAGE_SIZE_OFFSET as int, page_size),
            SECTOR_SIZE_OFFSET as int,
            sector_size,
        ) == spec_set_le32(
            spec_set_le32(s, SECTOR_SIZE_OFFSET as int, sector_size),
            PAGE_SIZE_OFFSET as int,
            page_size,
        ),
{
    assert(spec_set_le32(
        spec_set_le32(s, PAGE_SIZE_OFFSET as int, page_size),
        SECTOR_SIZE_OFFSET as int,
        sector_size,
    ) =~= spec_set_le32(
        spec_set_le32(s, SECTOR_SIZE_OFFSET as int, sector_size),
        PAGE_SIZE_OFFSET as int,
        page_size,
    ));
}

} // verus!
