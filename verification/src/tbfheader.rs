//! Tock Binary Format header parsing.
//!
//! An app's header is read from the bytes of the app's flash region, which
//! start with the header. Every read the format asks for must lie within
//! those bytes; a header that points past them is rejected.

use vstd::prelude::*;
use vstd::utf8::{valid_utf8, decode_utf8};

verus! {

/// The fixed-size part of every TBF header.
#[derive(Clone, Copy, Debug, PartialEq, Eq, Structural)]
pub struct TbfHeaderV2Base {
    pub version: u16,
    pub header_size: u16,
    pub total_size: u32,
    pub flags: u32,
    pub checksum: u32,
}

/// The main element of a header, for an app that runs.
#[derive(Clone, Copy, Debug, PartialEq, Eq, Structural)]
pub struct TbfHeaderV2Main {
    pub init_fn_offset: u32,
    pub protected_size: u32,
    pub minimum_ram_size: u32,
}

/// A region of the app's flash that the app may write.
#[derive(Clone, Copy, Debug, PartialEq, Eq, Structural)]
pub struct TbfHeaderV2WriteableFlashRegion {
    pub writeable_flash_region_offset: u32,
    pub writeable_flash_region_size: u32,
}

/// A version 2 header with its optional elements.
#[derive(Clone, Debug)]
pub struct TbfHeaderV2 {
    pub base: TbfHeaderV2Base,
    pub main: Option<TbfHeaderV2Main>,
    pub package_name: Option<String>,
    pub writeable_regions: Option<Vec<TbfHeaderV2WriteableFlashRegion>>,
}

/// A parsed header: an app, or padding between apps.
#[derive(Clone, Debug)]
pub enum TbfHeader {
    TbfHeaderV2(TbfHeaderV2),
    Padding(TbfHeaderV2Base),
}

/// The content of a version 2 header as plain values.
pub struct TbfHeaderV2Model {
    pub base: TbfHeaderV2Base,
    pub main: Option<TbfHeaderV2Main>,
    pub package_name: Option<Seq<char>>,
    pub writeable_regions: Option<Seq<TbfHeaderV2WriteableFlashRegion>>,
}

/// The content of a header as plain values.
pub enum TbfHeaderModel {
    TbfHeaderV2(TbfHeaderV2Model),
    Padding(TbfHeaderV2Base),
}

impl View for TbfHeaderV2 {
    type V = TbfHeaderV2Model;

    open spec fn view(&self) -> TbfHeaderV2Model {
        TbfHeaderV2Model {
            base: self.base,
            main: self.main,
            package_name: match self.package_name {
                Some(s) => Some(s@),
                None => None,
            },
            writeable_regions: regions_view(&self.writeable_regions),
        }
    }
}

impl View for TbfHeader {
    type V = TbfHeaderModel;

    open spec fn view(&self) -> TbfHeaderModel {
        match self {
            TbfHeader::TbfHeaderV2(h) => TbfHeaderModel::TbfHeaderV2(h@),
            TbfHeader::Padding(b) => TbfHeaderModel::Padding(*b),
        }
    }
}

impl TbfHeaderModel {
    pub open spec fn is_app(self) -> bool {
        self is TbfHeaderV2
    }

    pub open spec fn enabled(self) -> bool {
        match self {
            TbfHeaderModel::TbfHeaderV2(hd) => hd.base.flags & 1 == 1,
            TbfHeaderModel::Padding(_) => false,
        }
    }

    pub open spec fn total_size(self) -> u32 {
        match self {
            TbfHeaderModel::TbfHeaderV2(hd) => hd.base.total_size,
            TbfHeaderModel::Padding(hd) => hd.total_size,
        }
    }

    pub open spec fn minimum_app_ram_size(self) -> u32 {
        match self {
            TbfHeaderModel::TbfHeaderV2(hd) => match hd.main {
                Some(m) => m.minimum_ram_size,
                None => 0,
            },
            _ => 0,
        }
    }

    /// The size of the protected region at the start of the app's flash:
    /// the header and the protected bytes after it.
    pub open spec fn protected_size(self) -> int {
        match self {
            TbfHeaderModel::TbfHeaderV2(hd) => (match hd.main {
                Some(m) => m.protected_size as int,
                None => 0,
            }) + hd.base.header_size as int,
            _ => 0,
        }
    }

    /// The offset of the app's entry point from the start of its flash.
    pub open spec fn init_function_offset(self) -> int {
        match self {
            TbfHeaderModel::TbfHeaderV2(hd) => (match hd.main {
                Some(m) => m.init_fn_offset as int,
                None => 0,
            }) + hd.base.header_size as int,
            _ => 0,
        }
    }

    pub open spec fn package_name(self) -> Seq<char> {
        match self {
            TbfHeaderModel::TbfHeaderV2(hd) => match hd.package_name {
                Some(n) => n,
                None => Seq::empty(),
            },
            _ => Seq::empty(),
        }
    }

    pub open spec fn writeable_regions(self) -> Seq<TbfHeaderV2WriteableFlashRegion> {
        match self {
            TbfHeaderModel::TbfHeaderV2(hd) => match hd.writeable_regions {
                Some(r) => r,
                None => Seq::empty(),
            },
            _ => Seq::empty(),
        }
    }

    /// The offset and size of the writeable region `index`, or (0, 0).
    pub open spec fn writeable_flash_region(self, index: int) -> (u32, u32) {
        if 0 <= index < self.writeable_regions().len() {
            (
                self.writeable_regions()[index].writeable_flash_region_offset,
                self.writeable_regions()[index].writeable_flash_region_size,
            )
        } else {
            (0, 0)
        }
    }
}

/// What a parsed header reports: an app header's entry point and
/// protected region are counted from the start of the header, so they are
/// the main element's offset and protected size plus the header's size
/// (just the header's size without a main element), and its minimum RAM is
/// the main element's (0 without one); it is enabled when bit 0 of its
/// flags is set. A padding header is no app, is never enabled and asks for
/// no RAM.
pub proof fn law_header_reports(h: TbfHeaderModel)
    ensures
        h matches TbfHeaderModel::TbfHeaderV2(hd) ==> {
            &&& h.is_app()
            &&& h.total_size() == hd.base.total_size
            &&& h.enabled() == (hd.base.flags % 2 == 1)
            &&& hd.main matches Some(m) ==> {
                &&& h.init_function_offset() == m.init_fn_offset + hd.base.header_size
                &&& h.protected_size() == m.protected_size + hd.base.header_size
                &&& h.minimum_app_ram_size() == m.minimum_ram_size
            }
            &&& hd.main is None ==> {
                &&& h.init_function_offset() == hd.base.header_size
                &&& h.protected_size() == hd.base.header_size
                &&& h.minimum_app_ram_size() == 0
            }
        },
        h matches TbfHeaderModel::Padding(base) ==> {
            &&& !h.is_app()
            &&& !h.enabled()
            &&& h.total_size() == base.total_size
            &&& h.minimum_app_ram_size() == 0
        },
{
    if let TbfHeaderModel::TbfHeaderV2(hd) = h {
        let f = hd.base.flags;
        assert((f & 1 == 1) == (f % 2 == 1)) by (bit_vector);
    }
}

impl TbfHeader {
    pub fn is_app(&self) -> (r: bool)
        ensures
            r == self@.is_app(),
    {
        match *self {
            TbfHeader::TbfHeaderV2(_) => true,
            TbfHeader::Padding(_) => false,
        }
    }

    pub fn enabled(&self) -> (r: bool)
        ensures
            r == self@.enabled(),
    {
        match self {
            TbfHeader::TbfHeaderV2(hd) => hd.base.flags & 0x00000001 == 1,
            TbfHeader::Padding(_) => false,
        }
    }

    pub fn get_total_size(&self) -> (r: u32)
        ensures
            r == self@.total_size(),
    {
        match self {
            TbfHeader::TbfHeaderV2(hd) => hd.base.total_size,
            TbfHeader::Padding(hd) => hd.total_size,
        }
    }

    pub fn get_minimum_app_ram_size(&self) -> (r: u32)
        ensures
            r == self@.minimum_app_ram_size(),
    {
        match self {
            TbfHeader::TbfHeaderV2(hd) => match hd.main {
                Some(m) => m.minimum_ram_size,
                None => 0,
            },
            _ => 0,
        }
    }

    /// Whether the protected size and the entry point offset, each counted
    /// from the start of the header, fit in 32 bits.
    pub fn offsets_fit(&self) -> (r: bool)
        ensures
            r == (self@.protected_size() <= u32::MAX && self@.init_function_offset() <= u32::MAX),
    {
        match self {
            TbfHeader::TbfHeaderV2(hd) => match hd.main {
                Some(m) => m.protected_size <= u32::MAX - (hd.base.header_size as u32)
                    && m.init_fn_offset <= u32::MAX - (hd.base.header_size as u32),
                None => true,
            },
            _ => true,
        }
    }

    pub fn get_protected_size(&self) -> (r: u32)
        requires
            self@.protected_size() <= u32::MAX,
        ensures
            r == self@.protected_size(),
    {
        match self {
            TbfHeader::TbfHeaderV2(hd) => {
                let p: u32 = match hd.main {
                    Some(m) => m.protected_size,
                    None => 0,
                };
                p + (hd.base.header_size as u32)
            },
            _ => 0,
        }
    }

    pub fn get_init_function_offset(&self) -> (r: u32)
        requires
            self@.init_function_offset() <= u32::MAX,
        ensures
            r == self@.init_function_offset(),
    {
        match self {
            TbfHeader::TbfHeaderV2(hd) => {
                let p: u32 = match hd.main {
                    Some(m) => m.init_fn_offset,
                    None => 0,
                };
                p + (hd.base.header_size as u32)
            },
            _ => 0,
        }
    }

    pub fn get_package_name(&self) -> (r: &str)
        ensures
            r@ == self@.package_name(),
    {
        proof {
            reveal_strlit("");
        }
        match self {
            TbfHeader::TbfHeaderV2(hd) => match &hd.package_name {
                Some(n) => n.as_str(),
                None => "",
            },
            _ => "",
        }
    }

    pub fn number_writeable_flash_regions(&self) -> (r: usize)
        ensures
            r == self@.writeable_regions().len(),
    {
        match self {
            TbfHeader::TbfHeaderV2(hd) => match &hd.writeable_regions {
                Some(wr) => wr.len(),
                None => 0,
            },
            _ => 0,
        }
    }

    pub fn get_writeable_flash_region(&self, index: usize) -> (r: (u32, u32))
        ensures
            r == self@.writeable_flash_region(index as int),
    {
        match self {
            TbfHeader::TbfHeaderV2(hd) => match &hd.writeable_regions {
                Some(wr) => {
                    if wr.len() > index {
                        (wr[index].writeable_flash_region_offset, wr[index].writeable_flash_region_size)
                    } else {
                        (0, 0)
                    }
                },
                None => (0, 0),
            },
            _ => (0, 0),
        }
    }
}

/// The little-endian 16-bit value at `o`.
pub open spec fn le_u16(b: Seq<u8>, o: int) -> u16 {
    (b[o] + 256 * b[o + 1]) as u16
}

/// The little-endian 32-bit value at `o`.
pub open spec fn le_u32(b: Seq<u8>, o: int) -> u32 {
    (b[o] + 256 * b[o + 1] + 65536 * b[o + 2] + 16777216 * b[o + 3]) as u32
}

/// The base header at the start of `b`.
pub open spec fn spec_base(b: Seq<u8>) -> TbfHeaderV2Base {
    TbfHeaderV2Base {
        version: le_u16(b, 0),
        header_size: le_u16(b, 2),
        total_size: le_u32(b, 4),
        flags: le_u32(b, 8),
        checksum: le_u32(b, 12),
    }
}

/// The number of 32-bit words the checksum covers: the header rounded up
/// to whole words.
pub open spec fn checksum_chunks(header_size: u16) -> int {
    if header_size % 4 != 0 { header_size as int / 4 + 1 } else { header_size as int / 4 }
}

/// The exclusive or of the header's first `k` words, leaving out the word
/// that holds the checksum itself (word 3); the last word of a header whose
/// size is not a multiple of four is masked to `0xFFFFFFFF >> (4 - leftover)`.
pub open spec fn checksum_upto(b: Seq<u8>, chunks: int, leftover: int, k: int) -> u32
    decreases k,
{
    if k <= 0 {
        0
    } else {
        let i = k - 1;
        let prev = checksum_upto(b, chunks, leftover, k - 1);
        if i == 3 {
            prev
        } else if i == chunks - 1 && leftover != 0 {
            prev ^ (le_u32(b, 4 * i) & (0xFFFF_FFFFu32 >> ((4 - leftover) as u32)))
        } else {
            prev ^ le_u32(b, 4 * i)
        }
    }
}

/// The main element stored at `o`.
pub open spec fn spec_main_at(b: Seq<u8>, o: int) -> TbfHeaderV2Main {
    TbfHeaderV2Main {
        init_fn_offset: le_u32(b, o),
        protected_size: le_u32(b, o + 4),
        minimum_ram_size: le_u32(b, o + 8),
    }
}

/// The writeable flash region stored at `o`.
pub open spec fn spec_region_at(b: Seq<u8>, o: int) -> TbfHeaderV2WriteableFlashRegion {
    TbfHeaderV2WriteableFlashRegion {
        writeable_flash_region_offset: le_u32(b, o),
        writeable_flash_region_size: le_u32(b, o + 4),
    }
}

/// The `n` writeable flash regions stored from `o` on.
pub open spec fn spec_regions_at(b: Seq<u8>, o: int, n: int) -> Seq<TbfHeaderV2WriteableFlashRegion> {
    Seq::new(n as nat, |i: int| spec_region_at(b, o + 8 * i))
}

/// What the type-length-value elements of a header set.
pub struct TlvFields {
    pub main: Option<TbfHeaderV2Main>,
    pub regions: Option<Seq<TbfHeaderV2WriteableFlashRegion>>,
    pub name: Seq<char>,
}

/// The length of an element's value padded to a whole number of words.
pub open spec fn padded_len(length: u16) -> int {
    length + (4 - length % 4) % 4
}

/// An element's value takes up its length rounded up to the next multiple
/// of four bytes.
pub proof fn law_padding_rounds_up_to_words(length: u16)
    ensures
        padded_len(length) % 4 == 0,
        length <= padded_len(length) < length + 4,
{
}

/// The fields after applying the element of type `tipe` and length
/// `length` whose value starts at `o`, or `None` if the value runs past
/// the bytes. `rem` is the header length left after the element's type and
/// length. Types other than 1 (main), 2 (writeable flash regions) and 3
/// (package name) are skipped.
pub open spec fn apply_tlv(b: Seq<u8>, o: int, rem: int, tipe: u16, length: u16, acc: TlvFields) -> Option<TlvFields> {
    if tipe == 1 {
        if rem >= 12 && length == 12 {
            if o + 12 <= b.len() {
                Some(TlvFields { main: Some(spec_main_at(b, o)), ..acc })
            } else {
                None
            }
        } else {
            Some(acc)
        }
    } else if tipe == 2 {
        if length % 8 == 0 {
            if o + length <= b.len() {
                Some(TlvFields { regions: Some(spec_regions_at(b, o, length as int / 8)), ..acc })
            } else {
                None
            }
        } else {
            Some(acc)
        }
    } else if tipe == 3 {
        if rem >= length {
            if o + length <= b.len() {
                let name = b.subrange(o, o + length);
                if valid_utf8(name) {
                    Some(TlvFields { name: decode_utf8(name), ..acc })
                } else {
                    Some(acc)
                }
            } else {
                None
            }
        } else {
            Some(acc)
        }
    } else {
        Some(acc)
    }
}

/// The fields that the elements starting at offset `o`, in the `rem`
/// bytes of header left, set on top of `acc`; `None` if an element runs
/// past the bytes, past the header, or has a length whose padding
/// overflows 16 bits. Fewer than five bytes left end the elements.
pub open spec fn parse_tlvs(b: Seq<u8>, o: int, rem: int, acc: TlvFields) -> Option<TlvFields>
    decreases rem,
{
    if rem <= 4 {
        Some(acc)
    } else if o + 4 > b.len() {
        None
    } else {
        let tipe = le_u16(b, o);
        let length = le_u16(b, o + 2);
        let step = padded_len(length);
        match apply_tlv(b, o + 4, rem - 4, tipe, length, acc) {
            None => None,
            Some(next) => {
                if step > 0xFFFF || step > rem - 4 {
                    None
                } else {
                    parse_tlvs(b, o + 4 + step, rem - 4 - step, next)
                }
            }
        }
    }
}

/// The main element's value: three little-endian words at `o`, the
/// offset of the init function, the size of the protected region and the
/// minimum RAM size.
pub open spec fn main_words(b: Seq<u8>, o: int) -> TbfHeaderV2Main {
    TbfHeaderV2Main {
        init_fn_offset: (b[o] + 256 * b[o + 1] + 65536 * b[o + 2] + 16777216 * b[o + 3]) as u32,
        protected_size: (b[o + 4] + 256 * b[o + 5] + 65536 * b[o + 6] + 16777216 * b[o + 7]) as u32,
        minimum_ram_size: (b[o + 8] + 256 * b[o + 9] + 65536 * b[o + 10] + 16777216 * b[o + 11]) as u32,
    }
}

/// A main element (type 1, length 12) at `o` whose twelve bytes fit in the
/// header (`rem`, the header left from `o` on, holds its type, length and
/// value) sets the main fields to the three words it holds, and the
/// elements after it are read on top of that.
pub proof fn law_main_element_is_read(b: Seq<u8>, o: int, rem: int, acc: TlvFields)
    requires
        0 <= o,
        o + 16 <= b.len(),
        b[o] == 1 && b[o + 1] == 0,
        b[o + 2] == 12 && b[o + 3] == 0,
        rem >= 16,
    ensures
        parse_tlvs(b, o, rem, acc) == parse_tlvs(b, o + 16, rem - 16, TlvFields { main: Some(main_words(b, o + 4)), ..acc }),
{
    assert(le_u16(b, o) == 1);
    assert(le_u16(b, o + 2) == 12);
    assert(padded_len(12) == 12);
}

/// A header whose last element is the main element keeps it: with no room
/// for another element after it, the fields read are `acc` with the main
/// fields set to the three words the element holds.
pub proof fn law_last_main_element_is_kept(b: Seq<u8>, o: int, rem: int, acc: TlvFields)
    requires
        0 <= o,
        o + 16 <= b.len(),
        b[o] == 1 && b[o + 1] == 0,
        b[o + 2] == 12 && b[o + 3] == 0,
        16 <= rem <= 20,
    ensures
        parse_tlvs(b, o, rem, acc) == Some(TlvFields { main: Some(main_words(b, o + 4)), ..acc }),
{
    law_main_element_is_read(b, o, rem, acc);
}

/// A valid header of 32 bytes whose one element is the main element
/// (type 1, length 12, right after the 16-byte base) is an app header
/// with that main element: its init function offset, protected size and
/// minimum RAM size are the three words at bytes 20, 24 and 28.
pub proof fn law_header_keeps_its_main_element(b: Seq<u8>)
    requires
        spec_parse_tbf_header(b) is Some,
        b.len() >= 32,
        b[2] == 32 && b[3] == 0,
        b[16] == 1 && b[17] == 0,
        b[18] == 12 && b[19] == 0,
    ensures
        spec_parse_tbf_header(b) matches Some(TbfHeaderModel::TbfHeaderV2(h)) && h.main == Some(main_words(b, 20)),
{
    assert(le_u16(b, 2) == 32);
    law_last_main_element_is_kept(b, 16, 16, TlvFields { main: None, regions: None, name: Seq::empty() });
}

/// The checksum of a header of eight whole words is the exclusive or of
/// all its words but the fourth, which holds the checksum.
pub proof fn law_checksum_of_eight_words(b: Seq<u8>)
    ensures
        checksum_upto(b, 8, 0, 8) == le_u32(b, 0) ^ le_u32(b, 4) ^ le_u32(b, 8) ^ le_u32(b, 16) ^ le_u32(b, 20)
            ^ le_u32(b, 24) ^ le_u32(b, 28),
{
    reveal_with_fuel(checksum_upto, 9);
    let (w0, w1, w2, w4, w5, w6, w7) = (le_u32(b, 0), le_u32(b, 4), le_u32(b, 8), le_u32(b, 16), le_u32(b, 20),
        le_u32(b, 24), le_u32(b, 28));
    assert((0u32 ^ w0) == w0) by (bit_vector);
}

/// A version-2 header of 32 bytes whose total size is above 32 and at most
/// 0x10000000, whose checksum word is the exclusive or of its other words,
/// and whose one element is the main element (type 1, length 12, right
/// after the 16-byte base) is accepted as an app header with that base,
/// that main element (the three words at bytes 20, 24 and 28), no
/// writeable regions and an empty name; its entry point and protected
/// region are the first two of those words plus the header's 32 bytes.
pub proof fn law_header_with_only_a_main_element(b: Seq<u8>)
    requires
        b.len() >= 32,
        b[0] == 2 && b[1] == 0,
        b[2] == 32 && b[3] == 0,
        32 < le_u32(b, 4) <= 0x1000_0000,
        le_u32(b, 12) == le_u32(b, 0) ^ le_u32(b, 4) ^ le_u32(b, 8) ^ le_u32(b, 16) ^ le_u32(b, 20)
            ^ le_u32(b, 24) ^ le_u32(b, 28),
        b[16] == 1 && b[17] == 0,
        b[18] == 12 && b[19] == 0,
    ensures
        spec_parse_tbf_header(b) == Some(TbfHeaderModel::TbfHeaderV2(TbfHeaderV2Model {
            base: TbfHeaderV2Base {
                version: 2,
                header_size: 32,
                total_size: le_u32(b, 4),
                flags: le_u32(b, 8),
                checksum: le_u32(b, 12),
            },
            main: Some(main_words(b, 20)),
            package_name: Some(Seq::empty()),
            writeable_regions: None,
        })),
        spec_parse_tbf_header(b)->Some_0.init_function_offset() == main_words(b, 20).init_fn_offset + 32,
        spec_parse_tbf_header(b)->Some_0.protected_size() == main_words(b, 20).protected_size + 32,
        spec_parse_tbf_header(b)->Some_0.minimum_app_ram_size() == main_words(b, 20).minimum_ram_size,
{
    assert(le_u16(b, 0) == 2);
    assert(le_u16(b, 2) == 32);
    law_checksum_of_eight_words(b);
    assert(checksum_chunks(32) == 8);
    law_last_main_element_is_kept(b, 16, 16, TlvFields { main: None, regions: None, name: Seq::empty() });
}

/// A header is refused when it is not version 2, when its size is not
/// below its total size, when its total size is above 0x10000000, or when
/// it is shorter than its 16-byte base.
pub proof fn law_header_refusals(b: Seq<u8>)
    ensures
        b.len() < 16 ==> spec_parse_tbf_header(b) is None,
        b.len() >= 16 && !(b[0] == 2 && b[1] == 0) ==> spec_parse_tbf_header(b) is None,
        b.len() >= 16 && le_u16(b, 2) as u32 >= le_u32(b, 4) ==> spec_parse_tbf_header(b) is None,
        b.len() >= 16 && le_u32(b, 4) > 0x1000_0000 ==> spec_parse_tbf_header(b) is None,
        b.len() >= 16 && le_u16(b, 2) < 16 ==> spec_parse_tbf_header(b) is None,
{
    if b.len() >= 16 && !(b[0] == 2 && b[1] == 0) {
        assert(le_u16(b, 0) != 2);
    }
}

/// An element of writeable flash regions (type 2) whose length is a
/// multiple of eight, and whose value fits in the bytes, sets the regions
/// to the pairs of little-endian words it holds, in order: offset, then
/// size.
pub proof fn law_region_element_is_read(b: Seq<u8>, o: int, rem: int, length: u16, acc: TlvFields)
    requires
        0 <= o,
        o + 4 + length <= b.len(),
        b[o] == 2 && b[o + 1] == 0,
        le_u16(b, o + 2) == length,
        length % 8 == 0,
        rem >= 4 + length,
        rem > 4,
    ensures
        parse_tlvs(b, o, rem, acc) == parse_tlvs(b, o + 4 + length, rem - 4 - length, TlvFields {
            regions: Some(Seq::new(length as nat / 8, |i: int| TbfHeaderV2WriteableFlashRegion {
                writeable_flash_region_offset: le_u32(b, o + 4 + 8 * i),
                writeable_flash_region_size: le_u32(b, o + 8 + 8 * i),
            })),
            ..acc
        }),
{
    assert(le_u16(b, o) == 2);
    assert(padded_len(length) == length);
    let r1 = spec_regions_at(b, o + 4, length as int / 8);
    let r2 = Seq::new(length as nat / 8, |i: int| TbfHeaderV2WriteableFlashRegion {
        writeable_flash_region_offset: le_u32(b, o + 4 + 8 * i),
        writeable_flash_region_size: le_u32(b, o + 8 + 8 * i),
    });
    assert forall|i: int| 0 <= i < r1.len() implies r1[i] == r2[i] by {
        assert(o + 4 + 8 * i + 4 == o + 8 + 8 * i);
    }
    assert(r1 =~= r2);
}

/// An element of the package name (type 3) whose value fits in the header
/// and the bytes, and is valid UTF-8, sets the name to the characters those
/// bytes encode.
pub proof fn law_name_element_is_read(b: Seq<u8>, o: int, rem: int, length: u16, acc: TlvFields)
    requires
        0 <= o,
        o + 4 + length <= b.len(),
        b[o] == 3 && b[o + 1] == 0,
        le_u16(b, o + 2) == length,
        rem >= 4 + padded_len(length),
        rem > 4,
        padded_len(length) <= 0xFFFF,
        valid_utf8(b.subrange(o + 4, o + 4 + length)),
    ensures
        parse_tlvs(b, o, rem, acc) == parse_tlvs(b, o + 4 + padded_len(length), rem - 4 - padded_len(length), TlvFields {
            name: decode_utf8(b.subrange(o + 4, o + 4 + length)),
            ..acc
        }),
{
    assert(le_u16(b, o) == 3);
}

/// An element of any other type is skipped: the elements after it are
/// read as if it were not there.
pub proof fn law_unknown_element_is_skipped(b: Seq<u8>, o: int, rem: int, acc: TlvFields)
    requires
        0 <= o,
        o + 4 <= b.len(),
        le_u16(b, o) != 1 && le_u16(b, o) != 2 && le_u16(b, o) != 3,
        rem > 4,
        padded_len(le_u16(b, o + 2)) <= 0xFFFF,
        rem - 4 >= padded_len(le_u16(b, o + 2)),
    ensures
        parse_tlvs(b, o, rem, acc) == parse_tlvs(b, o + 4 + padded_len(le_u16(b, o + 2)),
            rem - 4 - padded_len(le_u16(b, o + 2)), acc),
{
}

/// The header at the start of `b`: `None` unless it is version 2, its
/// size is below its total size, its total size is at most 0x10000000, the
/// checksum matches, and it lies within `b`.
pub open spec fn spec_parse_tbf_header(b: Seq<u8>) -> Option<TbfHeaderModel> {
    if b.len() < 16 || le_u16(b, 0) != 2 {
        None
    } else {
        let base = spec_base(b);
        let hs = base.header_size;
        if hs as u32 >= base.total_size || base.total_size > 0x1000_0000 {
            None
        } else if b.len() < 4 * checksum_chunks(hs) {
            None
        } else if checksum_upto(b, checksum_chunks(hs), hs as int % 4, checksum_chunks(hs)) != base.checksum {
            None
        } else if hs < 16 {
            None
        } else if hs == 16 {
            Some(TbfHeaderModel::Padding(base))
        } else {
            match parse_tlvs(b, 16, hs - 16, TlvFields { main: None, regions: None, name: Seq::empty() }) {
                None => None,
                Some(f) => Some(TbfHeaderModel::TbfHeaderV2(TbfHeaderV2Model {
                    base,
                    main: f.main,
                    package_name: Some(f.name),
                    writeable_regions: f.regions,
                })),
            }
        }
    }
}

/// Converts the bytes to a string slice if they are valid UTF-8.
///
/// Calls `core::str::from_utf8`, whose documentation says it succeeds
/// exactly on valid UTF-8, and then yields the characters the bytes encode.
#[verifier::external_body]
fn str_from_utf8(bytes: &[u8]) -> (r: Option<&str>)
    ensures
        r.is_some() <==> valid_utf8(bytes@),
        r matches Some(s) ==> s@ == decode_utf8(bytes@),
{
    core::str::from_utf8(bytes).ok()
}

fn read_u16(b: &[u8], o: usize) -> (r: u16)
    requires
        o + 2 <= b@.len(),
    ensures
        r == le_u16(b@, o as int),
{
    let x0: u8 = b[o];
    let x1: u8 = b[o + 1];
    let r: u16 = (x0 as u16) | ((x1 as u16) << 8u16);
    assert(r == ((x0 + 256 * x1) as u16)) by (bit_vector)
        requires
            r == (x0 as u16) | ((x1 as u16) << 8u16),
    ;
    r
}

fn read_u32(b: &[u8], o: usize) -> (r: u32)
    requires
        o + 4 <= b@.len(),
    ensures
        r == le_u32(b@, o as int),
{
    let x0: u8 = b[o];
    let x1: u8 = b[o + 1];
    let x2: u8 = b[o + 2];
    let x3: u8 = b[o + 3];
    let r: u32 = (x0 as u32) | ((x1 as u32) << 8u32) | ((x2 as u32) << 16u32) | ((x3 as u32) << 24u32);
    assert(r == ((x0 + 256 * x1 + 65536 * x2 + 16777216 * x3) as u32)) by (bit_vector)
        requires
            r == (x0 as u32) | ((x1 as u32) << 8u32) | ((x2 as u32) << 16u32) | ((x3 as u32) << 24u32),
    ;
    r
}

/// The regions a parsed element holds, as a sequence.
pub open spec fn regions_view(r: &Option<Vec<TbfHeaderV2WriteableFlashRegion>>) -> Option<Seq<TbfHeaderV2WriteableFlashRegion>> {
    match r {
        Some(v) => Some(v@),
        None => None,
    }
}

fn read_main(b: &[u8], o: usize) -> (r: TbfHeaderV2Main)
    requires
        o + 12 <= b@.len(),
        b@.len() <= usize::MAX,
    ensures
        r == spec_main_at(b@, o as int),
{
    TbfHeaderV2Main {
        init_fn_offset: read_u32(b, o),
        protected_size: read_u32(b, o + 4),
        minimum_ram_size: read_u32(b, o + 8),
    }
}

fn read_regions(b: &[u8], o: usize, n: usize) -> (r: Vec<TbfHeaderV2WriteableFlashRegion>)
    requires
        o + 8 * n <= b@.len(),
        b@.len() <= usize::MAX,
    ensures
        r@ == spec_regions_at(b@, o as int, n as int),
{
    let mut v: Vec<TbfHeaderV2WriteableFlashRegion> = Vec::new();
    let mut i: usize = 0;
    while i < n
        invariant
            i <= n,
            o + 8 * n <= b@.len(),
            b@.len() <= usize::MAX,
            v@ == spec_regions_at(b@, o as int, i as int),
        decreases n - i,
    {
        let at = o + 8 * i;
        let region = TbfHeaderV2WriteableFlashRegion {
            writeable_flash_region_offset: read_u32(b, at),
            writeable_flash_region_size: read_u32(b, at + 4),
        };
        v.push(region);
        i = i + 1;
        assert(v@ =~= spec_regions_at(b@, o as int, i as int));
    }
    v
}

/// Converts a pointer to memory to a TbfHeader struct: parses and checks
/// the header at the start of `b`.
pub fn parse_and_validate_tbf_header(b: &[u8]) -> (r: Option<TbfHeader>)
    ensures
        match r {
            None => spec_parse_tbf_header(b@) is None,
            Some(h) => spec_parse_tbf_header(b@) == Some(h@),
        },
{
    if b.len() < 16 {
        return None;
    }
    let version = read_u16(b, 0);
    if version != 2 {
        return None;
    }
    let base = TbfHeaderV2Base {
        version: version,
        header_size: read_u16(b, 2),
        total_size: read_u32(b, 4),
        flags: read_u32(b, 8),
        checksum: read_u32(b, 12),
    };
    assert(base == spec_base(b@));
    if base.header_size as u32 >= base.total_size || base.total_size > 0x010000000 {
        return None;
    }
    let mut chunks: usize = base.header_size as usize / 4;
    let leftover_bytes: usize = base.header_size as usize % 4;
    if leftover_bytes != 0 {
        chunks += 1;
    }
    assert(chunks == checksum_chunks(base.header_size));
    if b.len() < chunks * 4 {
        return None;
    }
    let mut checksum: u32 = 0;
    let mut i: usize = 0;
    while i < chunks
        invariant
            i <= chunks,
            chunks * 4 <= b@.len(),
            chunks <= 0x4000,
            leftover_bytes < 4,
            checksum == checksum_upto(b@, chunks as int, leftover_bytes as int, i as int),
        decreases chunks - i,
    {
        let chunk = read_u32(b, 4 * i);
        if i == 3 {
        } else if i == chunks - 1 && leftover_bytes != 0 {
            checksum = checksum ^ (chunk & (0xFFFFFFFFu32 >> ((4 - leftover_bytes) as u32)));
        } else {
            checksum = checksum ^ chunk;
        }
        i += 1;
    }
    if checksum != base.checksum {
        return None;
    }
    if (base.header_size as usize) < 16 {
        return None;
    }
    let mut offset: usize = 16;
    let mut remaining_length: usize = base.header_size as usize - 16;
    if remaining_length == 0 {
        return Some(TbfHeader::Padding(base));
    }
    let mut main_pointer: Option<TbfHeaderV2Main> = None;
    let mut wfr_pointer: Option<Vec<TbfHeaderV2WriteableFlashRegion>> = None;
    let mut app_name_str: &str = "";
    proof {
        reveal_strlit("");
    }
    let ghost hs = base.header_size as int;
    let ghost init = TlvFields { main: None, regions: None, name: Seq::empty() };
    assert(spec_parse_tbf_header(b@) == match parse_tlvs(b@, 16, hs - 16, init) {
        None => None,
        Some(f) => Some(TbfHeaderModel::TbfHeaderV2(TbfHeaderV2Model {
            base,
            main: f.main,
            package_name: Some(f.name),
            writeable_regions: f.regions,
        })),
    });
    assert(app_name_str@ =~= Seq::<char>::empty());
    while remaining_length > 4
        invariant
            offset + remaining_length == hs,
            hs <= 0xFFFF,
            b@.len() <= usize::MAX,
            spec_parse_tbf_header(b@) == match parse_tlvs(b@, 16, hs - 16, init) {
                None => None,
                Some(f) => Some(TbfHeaderModel::TbfHeaderV2(TbfHeaderV2Model {
                    base,
                    main: f.main,
                    package_name: Some(f.name),
                    writeable_regions: f.regions,
                })),
            },
            parse_tlvs(b@, 16, hs - 16, init) == parse_tlvs(
                b@,
                offset as int,
                remaining_length as int,
                TlvFields {
                    main: main_pointer,
                    regions: regions_view(&wfr_pointer),
                    name: app_name_str@,
                },
            ),
        decreases remaining_length,
    {
        if offset + 4 > b.len() {
            return None;
        }
        let ghost acc = TlvFields {
            main: main_pointer,
            regions: regions_view(&wfr_pointer),
            name: app_name_str@,
        };
        let tipe = read_u16(b, offset);
        let length = read_u16(b, offset + 2);
        remaining_length -= 4;
        offset += 4;
        if tipe < 5 && tipe > 0 {
            if tipe == 1 {
                if remaining_length >= 12 && length as usize == 12 {
                    if offset + 12 > b.len() {
                        return None;
                    }
                    main_pointer = Some(read_main(b, offset));
                }
            } else if tipe == 2 {
                if length as usize % 8 == 0 {
                    if offset + length as usize > b.len() {
                        return None;
                    }
                    let number_regions = length as usize / 8;
                    wfr_pointer = Some(read_regions(b, offset, number_regions));
                }
            } else if tipe == 3 {
                if remaining_length >= length as usize {
                    if offset + length as usize > b.len() {
                        return None;
                    }
                    let package_name_byte_array = &b[offset..offset + length as usize];
                    match str_from_utf8(package_name_byte_array) {
                        Some(name_str) => {
                            app_name_str = name_str;
                        },
                        None => {},
                    }
                }
            }
        }
        let ghost cur = TlvFields {
            main: main_pointer,
            regions: regions_view(&wfr_pointer),
            name: app_name_str@,
        };
        assert(apply_tlv(b@, offset as int, remaining_length as int, tipe, length, acc) == Some(cur)) by {
            if tipe == 3 && remaining_length >= length as usize {
                assert(b@.subrange(offset as int, offset + length) =~= b@.subrange(offset as int, offset + length));
            }
        }
        let pad: u16 = (4 - (length % 4)) % 4;
        if length as u32 + pad as u32 > 0xFFFF {
            return None;
        }
        let step: usize = (length + pad) as usize;
        assert(step == padded_len(length));
        if step > remaining_length {
            assert(parse_tlvs(b@, offset - 4, remaining_length + 4, acc) is None);
            return None;
        }
        remaining_length -= step;
        offset += step;
    }
    let package_name: String = app_name_str.to_owned();
    let tbf_header = TbfHeaderV2 {
        base: base,
        main: main_pointer,
        package_name: Some(package_name),
        writeable_regions: wfr_pointer,
    };
    Some(TbfHeader::TbfHeaderV2(tbf_header))
}

} // verus!
