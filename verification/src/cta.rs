//! The data blocks of CTA-861 extensions and the capabilities they declare.
//!
//! An EDID is a base block of 128 bytes followed by extension blocks of the
//! same size. A CTA extension starts with the byte `0x02`; its third byte says
//! where its data block collection ends.

use vstd::prelude::*;
use vstd::slice::slice_subrange;

use crate::luminance::{lemma_nits_for, luminance_floor, luminance_nits, nits_for};

verus! {

/// One data block: the tag of its header byte, and the bytes that follow.
pub struct DataBlock {
    pub tag: u8,
    pub data: Seq<u8>,
}

/// The tag that a header byte holds in its top three bits.
pub open spec fn header_tag(b: u8) -> u8 {
    (b >> 5) & 0x7
}

/// The length that a header byte holds in its low five bits.
pub open spec fn header_len(b: u8) -> int {
    (b & 0x1f) as int
}

/// The data blocks from position `at` on: each starts before `end`, and the
/// first one that `raw` does not hold whole ends the walk.
pub open spec fn blocks_from(raw: Seq<u8>, at: int, end: int) -> Seq<DataBlock>
    decreases raw.len() - at,
{
    if 0 <= at < end && at < raw.len() && 0 <= header_len(raw[at]) && at + 1 + header_len(raw[at])
        <= raw.len() {
        let next = at + 1 + header_len(raw[at]);
        seq![DataBlock { tag: header_tag(raw[at]), data: raw.subrange(at + 1, next) }]
            + blocks_from(raw, next, end)
    } else {
        Seq::empty()
    }
}

/// The data blocks of the CTA extensions from position `bs` on.
pub open spec fn extension_blocks(raw: Seq<u8>, bs: int) -> Seq<DataBlock>
    decreases raw.len() - bs,
{
    if 0 <= bs && bs + 128 <= raw.len() {
        let here = if raw[bs] == 0x02 {
            blocks_from(raw, bs + 4, bs + raw[bs + 2])
        } else {
            Seq::empty()
        };
        here + extension_blocks(raw, bs + 128)
    } else {
        Seq::empty()
    }
}

/// All data blocks of an EDID, in the order in which they stand.
pub open spec fn data_blocks(raw: Seq<u8>) -> Seq<DataBlock> {
    extension_blocks(raw, 128)
}

/// What a data block can declare.
pub enum BlockKind {
    /// The transfer functions of HDR static metadata.
    HdrMetadata,
    /// HDR static metadata with a peak luminance.
    Luminance,
    /// Colorimetry.
    Colorimetry,
    /// HDR10+.
    Hdr10Plus,
    /// Dolby Vision.
    Dolby,
    /// The HDMI licensing block.
    Hdmi,
    /// The HDMI Forum block.
    HdmiForum,
    /// An HDMI Forum block that announces stream compression.
    Compression,
}

/// The three-byte vendor number at `at`, least significant byte first.
pub open spec fn vendor_number(data: Seq<u8>, at: int) -> int {
    data[at] + 0x100 * data[at + 1] + 0x1_0000 * data[at + 2]
}

/// A block with an extended tag.
pub open spec fn extended(b: DataBlock, code: u8) -> bool {
    b.tag == 7 && b.data.len() > 0 && b.data[0] == code
}

/// A vendor block of the given vendor.
pub open spec fn vendor(b: DataBlock, number: int) -> bool {
    b.tag == 3 && b.data.len() >= 3 && vendor_number(b.data, 0) == number
}

/// The vendor number of Dolby.
pub const DOLBY: u32 = 0xD046;

/// The vendor number of the HDMI licensing block.
pub const HDMI: u32 = 0x0C03;

/// The vendor number of the HDMI Forum block.
pub const HDMI_FORUM: u32 = 0x00C4_5D00;

/// Whether a block is of the given kind.
pub open spec fn is_kind(b: DataBlock, kind: BlockKind) -> bool {
    match kind {
        BlockKind::HdrMetadata => extended(b, 6) && b.data.len() >= 2,
        BlockKind::Luminance => extended(b, 6) && b.data.len() >= 4 && b.data[3] != 0,
        BlockKind::Colorimetry => extended(b, 5) && b.data.len() >= 2,
        BlockKind::Hdr10Plus => extended(b, 13),
        BlockKind::Dolby => (extended(b, 1) && b.data.len() >= 4 && vendor_number(b.data, 1)
            == DOLBY) || vendor(b, DOLBY as int),
        BlockKind::Hdmi => vendor(b, HDMI as int),
        BlockKind::HdmiForum => vendor(b, HDMI_FORUM as int),
        BlockKind::Compression => vendor(b, HDMI_FORUM as int) && b.data.len() >= 9 && b.data[8]
            & 0x80 != 0,
    }
}

/// Some block is of the given kind.
pub open spec fn any_of(blocks: Seq<DataBlock>, kind: BlockKind) -> bool {
    exists|i: int| 0 <= i < blocks.len() && is_kind(#[trigger] blocks[i], kind)
}

/// The last block of the given kind.
pub open spec fn last_of(blocks: Seq<DataBlock>, kind: BlockKind) -> Option<DataBlock>
    decreases blocks.len(),
{
    if blocks.len() == 0 {
        None
    } else if is_kind(blocks.last(), kind) {
        Some(blocks.last())
    } else {
        last_of(blocks.drop_last(), kind)
    }
}

/// The last block of a kind exists where some block is of that kind, and no
/// block behind it is.
pub proof fn law_last_of(blocks: Seq<DataBlock>, kind: BlockKind)
    ensures
        match last_of(blocks, kind) {
            Some(b) => exists|i: int|
                #![trigger blocks[i]]
                0 <= i < blocks.len() && blocks[i] == b && is_kind(b, kind) && (forall|j: int|
                    i < j < blocks.len() ==> !is_kind(#[trigger] blocks[j], kind)),
            None => !any_of(blocks, kind),
        },
    decreases blocks.len(),
{
    if blocks.len() > 0 {
        let front = blocks.drop_last();
        law_last_of(front, kind);
        if is_kind(blocks.last(), kind) {
            assert(blocks[blocks.len() - 1] == blocks.last());
        } else if last_of(front, kind) is Some {
            let b = last_of(front, kind).unwrap();
            let i = choose|i: int|
                #![trigger front[i]]
                0 <= i < front.len() && front[i] == b && is_kind(b, kind) && (forall|j: int|
                    i < j < front.len() ==> !is_kind(#[trigger] front[j], kind));
            assert(blocks[i] == b);
            assert forall|j: int| i < j < blocks.len() implies !is_kind(
                #[trigger] blocks[j],
                kind,
            ) by {
                if j < front.len() {
                    assert(front[j] == blocks[j]);
                }
            }
        } else {
            assert forall|j: int| 0 <= j < blocks.len() implies !is_kind(
                #[trigger] blocks[j],
                kind,
            ) by {
                if j < front.len() {
                    assert(front[j] == blocks[j]);
                }
            }
        }
    }
}

/// The generation of an HDMI port.
#[derive(Debug, Clone, Copy, PartialEq, Eq, Structural)]
pub enum HdmiVersion {
    V14,
    V20,
    V21,
}

impl HdmiVersion {
    /// The name of the generation.
    pub open spec fn name(self) -> Seq<char> {
        match self {
            HdmiVersion::V14 => "HDMI 1.4"@,
            HdmiVersion::V20 => "HDMI 2.0"@,
            HdmiVersion::V21 => "HDMI 2.1"@,
        }
    }

    /// The name of the generation.
    pub fn label(self) -> (r: &'static str)
        ensures
            r@ == self.name(),
    {
        match self {
            HdmiVersion::V14 => "HDMI 1.4",
            HdmiVersion::V20 => "HDMI 2.0",
            HdmiVersion::V21 => "HDMI 2.1",
        }
    }
}

/// The generation that an HDMI Forum block declares: its fifth byte is the
/// highest character rate in units of five megahertz, and from 600 MHz on the
/// port is an HDMI 2.1 port.
pub open spec fn forum_version(b: DataBlock) -> HdmiVersion {
    if b.data.len() >= 5 && b.data[4] * 5 >= 600 {
        HdmiVersion::V21
    } else {
        HdmiVersion::V20
    }
}

/// The generation that the blocks declare: the last HDMI Forum block decides,
/// and without one the licensing block stands for HDMI 1.4.
pub open spec fn hdmi_version(blocks: Seq<DataBlock>) -> Option<HdmiVersion> {
    match last_of(blocks, BlockKind::HdmiForum) {
        Some(b) => Some(forum_version(b)),
        None => if any_of(blocks, BlockKind::Hdmi) {
            Some(HdmiVersion::V14)
        } else {
            None
        },
    }
}

/// What the data blocks of a display declare.
#[derive(Debug, Clone, Copy)]
pub struct Features {
    pub hdr10: bool,
    pub hlg: bool,
    pub hdr10plus: bool,
    pub dolby: bool,
    pub bt2020: bool,
    pub dci_p3: bool,
    pub dsc: bool,
    pub max_lum_nits: u32,
    pub hdmi: Option<HdmiVersion>,
}

/// Bits of the last block of a kind; no bit without such a block.
pub open spec fn last_bits(blocks: Seq<DataBlock>, kind: BlockKind) -> u8 {
    match last_of(blocks, kind) {
        Some(b) => b.data[1],
        None => 0,
    }
}

/// The features that a list of data blocks declares.
pub open spec fn features(blocks: Seq<DataBlock>) -> Features {
    Features {
        hdr10: last_bits(blocks, BlockKind::HdrMetadata) & 0x04 != 0,
        hlg: last_bits(blocks, BlockKind::HdrMetadata) & 0x08 != 0,
        hdr10plus: any_of(blocks, BlockKind::Hdr10Plus),
        dolby: any_of(blocks, BlockKind::Dolby),
        bt2020: last_bits(blocks, BlockKind::Colorimetry) & 0x80 != 0,
        dci_p3: last_bits(blocks, BlockKind::Colorimetry) & 0x02 != 0,
        dsc: any_of(blocks, BlockKind::Compression),
        max_lum_nits: match last_of(blocks, BlockKind::Luminance) {
            Some(b) => nits_for(b.data[3] as nat) as u32,
            None => 0,
        },
        hdmi: hdmi_version(blocks),
    }
}

/// Some block of a longer list is of a kind where the list it extends has one
/// or the new block is one.
proof fn lemma_any_of_push(blocks: Seq<DataBlock>, b: DataBlock, kind: BlockKind)
    ensures
        any_of(blocks.push(b), kind) == (any_of(blocks, kind) || is_kind(b, kind)),
{
    let longer = blocks.push(b);
    if any_of(blocks, kind) {
        let i = choose|i: int| 0 <= i < blocks.len() && is_kind(#[trigger] blocks[i], kind);
        assert(longer[i] == blocks[i]);
    }
    if is_kind(b, kind) {
        assert(longer[blocks.len() as int] == b);
    }
    if any_of(longer, kind) {
        let i = choose|i: int| 0 <= i < longer.len() && is_kind(#[trigger] longer[i], kind);
        if i < blocks.len() {
            assert(blocks[i] == longer[i]);
        }
    }
}

/// How one more block changes the last block of a kind.
proof fn lemma_last_of_push(blocks: Seq<DataBlock>, b: DataBlock, kind: BlockKind)
    ensures
        last_of(blocks.push(b), kind) == (if is_kind(b, kind) {
            Some(b)
        } else {
            last_of(blocks, kind)
        }),
{
    assert(blocks.push(b).drop_last() == blocks);
}

/// Every fact that the features of a longer list rest on.
proof fn lemma_push(blocks: Seq<DataBlock>, b: DataBlock)
    ensures
        forall|kind: BlockKind| #[trigger]
            any_of(blocks.push(b), kind) == (any_of(blocks, kind) || is_kind(b, kind)),
        forall|kind: BlockKind| #[trigger]
            last_of(blocks.push(b), kind) == (if is_kind(b, kind) {
                Some(b)
            } else {
                last_of(blocks, kind)
            }),
{
    assert forall|kind: BlockKind| #[trigger]
        any_of(blocks.push(b), kind) == (any_of(blocks, kind) || is_kind(b, kind)) by {
        lemma_any_of_push(blocks, b, kind);
    }
    assert forall|kind: BlockKind| #[trigger]
        last_of(blocks.push(b), kind) == (if is_kind(b, kind) {
            Some(b)
        } else {
            last_of(blocks, kind)
        }) by {
        lemma_last_of_push(blocks, b, kind);
    }
}

/// Reads the vendor number at `at`.
fn read_vendor(data: &[u8], at: usize) -> (r: u32)
    requires
        at + 3 <= data@.len(),
    ensures
        r == vendor_number(data@, at as int),
{
    data[at] as u32 + 0x100 * data[at + 1] as u32 + 0x1_0000 * data[at + 2] as u32
}

impl Features {
    /// Nothing declared.
    fn none() -> (r: Features)
        ensures
            r == features(Seq::empty()),
    {
        assert(0u8 & 0x04 == 0) by (bit_vector);
        assert(0u8 & 0x08 == 0) by (bit_vector);
        assert(0u8 & 0x80 == 0) by (bit_vector);
        assert(0u8 & 0x02 == 0) by (bit_vector);
        Features {
            hdr10: false,
            hlg: false,
            hdr10plus: false,
            dolby: false,
            bt2020: false,
            dci_p3: false,
            dsc: false,
            max_lum_nits: 0,
            hdmi: None,
        }
    }

    /// Adds what a block with an extended tag declares.
    fn add_extended(&mut self, data: &[u8], Ghost(seen): Ghost<Seq<DataBlock>>)
        requires
            *old(self) == features(seen),
        ensures
            *final(self) == features(seen.push(DataBlock { tag: 7, data: data@ })),
    {
        let ghost b = DataBlock { tag: 7, data: data@ };
        proof {
            lemma_push(seen, b);
        }
        let n: usize = data.len();
        if n == 0 {
            return;
        }
        match data[0] {
            6 => {
                if n >= 2 {
                    self.hdr10 = data[1] & 0x04 != 0;
                    self.hlg = data[1] & 0x08 != 0;
                    if n >= 4 && data[3] != 0 {
                        self.max_lum_nits = luminance_nits(data[3]);
                    }
                }
            },
            5 => {
                if n >= 2 {
                    self.bt2020 = data[1] & 0x80 != 0;
                    self.dci_p3 = data[1] & 0x02 != 0;
                }
            },
            13 => {
                self.hdr10plus = true;
            },
            1 => {
                if n >= 4 && read_vendor(data, 1) == DOLBY {
                    self.dolby = true;
                }
            },
            _ => {},
        }
    }

    /// Adds what a vendor block declares.
    fn add_vendor(&mut self, data: &[u8], Ghost(seen): Ghost<Seq<DataBlock>>)
        requires
            *old(self) == features(seen),
        ensures
            *final(self) == features(seen.push(DataBlock { tag: 3, data: data@ })),
    {
        let ghost b = DataBlock { tag: 3, data: data@ };
        proof {
            lemma_push(seen, b);
        }
        let n: usize = data.len();
        if n < 3 {
            return;
        }
        let number: u32 = read_vendor(data, 0);
        if number == DOLBY {
            self.dolby = true;
        } else if number == HDMI {
            if self.hdmi.is_none() {
                self.hdmi = Some(HdmiVersion::V14);
            }
        } else if number == HDMI_FORUM {
            let rate: u32 = if n >= 5 {
                data[4] as u32 * 5
            } else {
                0
            };
            self.hdmi = Some(
                if rate >= 600 {
                    HdmiVersion::V21
                } else {
                    HdmiVersion::V20
                },
            );
            if n >= 9 && data[8] & 0x80 != 0 {
                self.dsc = true;
            }
        }
    }

    /// Adds what one data block declares.
    fn add_block(&mut self, tag: u8, data: &[u8], Ghost(seen): Ghost<Seq<DataBlock>>)
        requires
            *old(self) == features(seen),
        ensures
            *final(self) == features(seen.push(DataBlock { tag, data: data@ })),
    {
        if tag == 7 {
            self.add_extended(data, Ghost(seen));
        } else if tag == 3 {
            self.add_vendor(data, Ghost(seen));
        } else {
            proof {
                lemma_push(seen, DataBlock { tag, data: data@ });
            }
        }
    }
}

/// Reads the features that the CTA extensions of an EDID declare.
pub fn read_features(raw: &[u8]) -> (r: Features)
    ensures
        r == features(data_blocks(raw@)),
{
    let n: usize = raw.len();
    let mut found: Features = Features::none();
    let ghost mut seen: Seq<DataBlock> = Seq::empty();
    let mut bs: usize = 128;
    assert(seen + extension_blocks(raw@, 128) == data_blocks(raw@));
    while bs <= n && n - bs >= 128
        invariant
            n == raw@.len(),
            found == features(seen),
            seen + extension_blocks(raw@, bs as int) == data_blocks(raw@),
        decreases n - bs,
    {
        let ghost later = extension_blocks(raw@, bs + 128);
        if raw[bs] == 0x02 {
            let room: usize = n - bs;
            let dtd: usize = raw[bs + 2] as usize;
            let mut i: usize = 4;
            let ghost end: int = bs + dtd;
            assert(seen + (blocks_from(raw@, bs + 4, end) + later) == data_blocks(raw@));
            while i < dtd && i < room
                invariant_except_break
                    n == raw@.len(),
                    bs + room == n,
                    end == bs + dtd,
                    found == features(seen),
                    seen + (blocks_from(raw@, bs + i, end) + later) == data_blocks(raw@),
                ensures
                    found == features(seen),
                    seen + later == data_blocks(raw@),
                decreases room - i,
            {
                let header: u8 = raw[bs + i];
                assert(header & 0x1f <= 31) by (bit_vector);
                let tag: u8 = (header >> 5) & 0x7;
                let length: usize = (header & 0x1f) as usize;
                if room - i < 1 + length {
                    assert(blocks_from(raw@, bs + i, end) + later == later);
                    break;
                }
                let next: usize = i + 1 + length;
                let data: &[u8] = slice_subrange(raw, bs + i + 1, bs + next);
                found.add_block(tag, data, Ghost(seen));
                proof {
                    let b = DataBlock { tag, data: data@ };
                    let rest = blocks_from(raw@, bs + next, end);
                    assert(seen + ((seq![b] + rest) + later) == seen.push(b) + (rest + later));
                    seen = seen.push(b);
                }
                i = next;
                assert(i >= dtd || i >= room ==> blocks_from(raw@, bs + i, end) + later == later);
            }
        } else {
            assert(Seq::<DataBlock>::empty() + later == later);
        }
        bs += 128;
    }
    assert(seen + Seq::<DataBlock>::empty() == seen);
    found
}

/// What one block declares by being there, more blocks do not withdraw.
pub proof fn law_presence_stays(blocks: Seq<DataBlock>, more: Seq<DataBlock>)
    ensures
        features(blocks).hdr10plus ==> features(blocks + more).hdr10plus,
        features(blocks).dolby ==> features(blocks + more).dolby,
        features(blocks).dsc ==> features(blocks + more).dsc,
        features(blocks).hdmi is Some ==> features(blocks + more).hdmi is Some,
    decreases more.len(),
{
    if more.len() == 0 {
        assert(blocks + more == blocks);
    } else {
        law_presence_stays(blocks, more.drop_last());
        lemma_push(blocks + more.drop_last(), more.last());
        assert(blocks + more == (blocks + more.drop_last()).push(more.last()));
    }
}

/// A block of HDR static metadata: its first payload byte holds the transfer
/// functions, its third the code of the peak. Whatever else it holds changes
/// nothing.
pub proof fn law_hdr_metadata(front: Seq<DataBlock>, payload: Seq<u8>)
    requires
        payload.len() >= 1,
    ensures
        ({
            let was = features(front);
            let now = features(front.push(DataBlock { tag: 7, data: seq![6u8] + payload }));
            &&& now.hdr10 <==> (payload[0] / 4) % 2 == 1
            &&& now.hlg <==> (payload[0] / 8) % 2 == 1
            &&& payload.len() >= 3 && payload[2] != 0 ==> luminance_floor(
                now.max_lum_nits as nat,
                payload[2] as nat,
            )
            &&& payload.len() < 3 || payload[2] == 0 ==> now.max_lum_nits == was.max_lum_nits
            &&& now == (Features {
                hdr10: now.hdr10,
                hlg: now.hlg,
                max_lum_nits: now.max_lum_nits,
                ..was
            })
        }),
{
    let b = DataBlock { tag: 7, data: seq![6u8] + payload };
    lemma_push(front, b);
    let x = payload[0];
    assert(b.data[1] == x);
    assert((x & 0x04 != 0) == ((x / 4) % 2 == 1)) by (bit_vector);
    assert((x & 0x08 != 0) == ((x / 8) % 2 == 1)) by (bit_vector);
    if payload.len() >= 3 {
        assert(b.data[3] == payload[2]);
        lemma_nits_for(payload[2]);
    }
}

/// Bytes behind the peak of an HDR static metadata block never change it: the
/// peak is the luminance of its code, whatever the block holds beside it.
pub proof fn law_peak_alone(t: u8, m: u8, c: u8, rest: Seq<u8>)
    requires
        c != 0,
    ensures
        luminance_floor(
            features(
                seq![DataBlock { tag: 7, data: seq![6, t, m, c] + rest }],
            ).max_lum_nits as nat,
            c as nat,
        ),
{
    let payload = seq![t, m, c] + rest;
    let b = DataBlock { tag: 7, data: seq![6, t, m, c] + rest };
    assert(b.data == seq![6u8] + payload);
    assert(seq![b] == Seq::<DataBlock>::empty().push(b));
    law_hdr_metadata(Seq::empty(), payload);
}

/// The last block with a peak decides on it: blocks behind it that hold none
/// leave it.
pub proof fn law_last_peak(blocks: Seq<DataBlock>, i: int)
    requires
        0 <= i < blocks.len(),
        blocks[i].tag == 7,
        blocks[i].data.len() >= 4,
        blocks[i].data[0] == 6,
        blocks[i].data[3] != 0,
        forall|j: int|
            i < j < blocks.len() ==> !((#[trigger] blocks[j]).tag == 7 && blocks[j].data.len() >= 4
                && blocks[j].data[0] == 6 && blocks[j].data[3] != 0),
    ensures
        luminance_floor(features(blocks).max_lum_nits as nat, blocks[i].data[3] as nat),
    decreases blocks.len(),
{
    let front = blocks.drop_last();
    let b = blocks.last();
    assert(blocks == front.push(b));
    lemma_push(front, b);
    lemma_nits_for(blocks[i].data[3]);
    if i < blocks.len() - 1 {
        assert(b == blocks[blocks.len() - 1]);
        assert forall|j: int| i < j < front.len() implies !((#[trigger] front[j]).tag == 7
            && front[j].data.len() >= 4 && front[j].data[0] == 6 && front[j].data[3] != 0) by {
            assert(front[j] == blocks[j]);
        }
        law_last_peak(front, i);
    }
}

/// A colorimetry block declares the two wide gamuts by bits of its first
/// payload byte, and nothing else.
pub proof fn law_colorimetry(front: Seq<DataBlock>, payload: Seq<u8>)
    requires
        payload.len() >= 1,
    ensures
        features(front.push(DataBlock { tag: 7, data: seq![5u8] + payload })) == (Features {
            bt2020: payload[0] >= 128,
            dci_p3: (payload[0] / 2) % 2 == 1,
            ..features(front)
        }),
{
    let b = DataBlock { tag: 7, data: seq![5u8] + payload };
    lemma_push(front, b);
    let x = payload[0];
    assert(b.data[1] == x);
    assert((x & 0x80 != 0) == (x >= 128)) by (bit_vector);
    assert((x & 0x02 != 0) == ((x / 2) % 2 == 1)) by (bit_vector);
}

/// An HDR10+ block declares HDR10+ by being there, and nothing else.
pub proof fn law_hdr10_plus(front: Seq<DataBlock>, payload: Seq<u8>)
    ensures
        features(front.push(DataBlock { tag: 7, data: seq![13u8] + payload })) == (Features {
            hdr10plus: true,
            ..features(front)
        }),
{
    lemma_push(front, DataBlock { tag: 7, data: seq![13u8] + payload });
}

/// Dolby's vendor number in either kind of vendor block declares Dolby Vision,
/// and nothing else.
pub proof fn law_dolby(front: Seq<DataBlock>, rest: Seq<u8>)
    ensures
        features(
            front.push(DataBlock { tag: 7, data: seq![1u8, 0x46, 0xd0, 0x00] + rest }),
        ) == (Features { dolby: true, ..features(front) }),
        features(
            front.push(DataBlock { tag: 3, data: seq![0x46u8, 0xd0, 0x00] + rest }),
        ) == (Features { dolby: true, ..features(front) }),
{
    lemma_push(front, DataBlock { tag: 7, data: seq![1u8, 0x46, 0xd0, 0x00] + rest });
    lemma_push(front, DataBlock { tag: 3, data: seq![0x46u8, 0xd0, 0x00] + rest });
}

/// The HDMI licensing block stands for HDMI 1.4 where nothing else says what
/// the port is, and changes nothing else.
pub proof fn law_hdmi_licensing(front: Seq<DataBlock>, rest: Seq<u8>)
    ensures
        features(
            front.push(DataBlock { tag: 3, data: seq![0x03u8, 0x0c, 0x00] + rest }),
        ) == (Features {
            hdmi: if features(front).hdmi is Some {
                features(front).hdmi
            } else {
                Some(HdmiVersion::V14)
            },
            ..features(front)
        }),
{
    lemma_push(front, DataBlock { tag: 3, data: seq![0x03u8, 0x0c, 0x00] + rest });
    law_last_of(front, BlockKind::HdmiForum);
}

/// An HDMI Forum block decides on the port's generation by its rate, from 120
/// units on, may announce stream compression by the top bit of its ninth byte,
/// and changes nothing else.
pub proof fn law_hdmi_forum(front: Seq<DataBlock>, rest: Seq<u8>)
    ensures
        features(
            front.push(DataBlock { tag: 3, data: seq![0x00u8, 0x5d, 0xc4] + rest }),
        ) == (Features {
            hdmi: Some(
                if rest.len() >= 2 && rest[1] >= 120 {
                    HdmiVersion::V21
                } else {
                    HdmiVersion::V20
                },
            ),
            dsc: features(front).dsc || (rest.len() >= 6 && rest[5] >= 128),
            ..features(front)
        }),
{
    let b = DataBlock { tag: 3, data: seq![0x00u8, 0x5d, 0xc4] + rest };
    lemma_push(front, b);
    if rest.len() >= 2 {
        assert(b.data[4] == rest[1]);
    }
    if rest.len() >= 6 {
        let x = rest[5];
        assert(b.data[8] == x);
        assert((x & 0x80 != 0) == (x >= 128)) by (bit_vector);
    }
}

/// A block with an extended tag that declares nothing: an unknown tag, or a
/// known one without the bytes it needs.
pub open spec fn silent_extended(data: Seq<u8>) -> bool {
    ||| data.len() == 0
    ||| data[0] != 1 && data[0] != 5 && data[0] != 6 && data[0] != 13
    ||| (data[0] == 5 || data[0] == 6) && data.len() == 1
    ||| data[0] == 1 && !(data.len() >= 4 && data[1] == 0x46 && data[2] == 0xd0 && data[3] == 0)
}

/// A vendor block that declares nothing: one of an unknown vendor.
pub open spec fn silent_vendor(data: Seq<u8>) -> bool {
    ||| data.len() < 3
    ||| !(data[0] == 0x46 && data[1] == 0xd0 && data[2] == 0x00) && !(data[0] == 0x03 && data[1]
        == 0x0c && data[2] == 0x00) && !(data[0] == 0x00 && data[1] == 0x5d && data[2] == 0xc4)
}

/// Any other block changes nothing.
pub proof fn law_silent_blocks(front: Seq<DataBlock>, b: DataBlock)
    requires
        b.tag == 7 ==> silent_extended(b.data),
        b.tag == 3 ==> silent_vendor(b.data),
    ensures
        features(front.push(b)) == features(front),
{
    lemma_push(front, b);
}

/// The bytes of a data block: the tag in the top three bits of the first byte,
/// the length of the data in the other five, and the data.
pub open spec fn block_bytes(b: DataBlock) -> Seq<u8> {
    seq![(b.tag * 32 + b.data.len()) as u8] + b.data
}

/// A data block that has bytes.
pub open spec fn writable(b: DataBlock) -> bool {
    b.tag < 8 && b.data.len() < 32
}

/// The bytes of data blocks, one behind the other.
pub open spec fn collection_bytes(blocks: Seq<DataBlock>) -> Seq<u8>
    decreases blocks.len(),
{
    if blocks.len() == 0 {
        Seq::empty()
    } else {
        block_bytes(blocks[0]) + collection_bytes(blocks.skip(1))
    }
}

/// The bytes of a CTA extension: a header whose third byte says where the data
/// blocks end, the blocks, and what follows them.
pub open spec fn extension_bytes(
    revision: u8,
    flags: u8,
    blocks: Seq<DataBlock>,
    rest: Seq<u8>,
) -> Seq<u8> {
    seq![0x02u8, revision, (4 + collection_bytes(blocks).len()) as u8, flags] + collection_bytes(
        blocks,
    ) + rest
}

/// A block that was written is read back, and the walk goes on behind it,
/// wherever the block starts before the end.
pub proof fn law_block_read(raw: Seq<u8>, at: int, end: int, b: DataBlock)
    requires
        writable(b),
        0 <= at < end,
        at + 1 + b.data.len() <= raw.len(),
        raw.subrange(at, at + 1 + b.data.len()) == block_bytes(b),
    ensures
        blocks_from(raw, at, end) == seq![b] + blocks_from(raw, at + 1 + b.data.len(), end),
{
    let bytes = block_bytes(b);
    let h = raw[at];
    assert(bytes[0] == h);
    assert(((h >> 5) & 0x7) == h / 32) by (bit_vector);
    assert((h & 0x1f) == h % 32) by (bit_vector);
    assert(h == b.tag * 32 + b.data.len());
    assert(raw.subrange(at + 1, at + 1 + b.data.len()) == b.data) by {
        assert forall|i: int| 0 <= i < b.data.len() implies raw[at + 1 + i] == b.data[i] by {
            assert(bytes[i + 1] == raw.subrange(at, at + 1 + b.data.len())[i + 1]);
        }
    }
}

/// A block that starts at the end or behind it is not read, and neither is one
/// that the data does not hold whole.
pub proof fn law_walk_ends(raw: Seq<u8>, at: int, end: int)
    requires
        0 <= at,
        at >= end || at >= raw.len() || at + 1 + raw[at] % 32 > raw.len(),
    ensures
        blocks_from(raw, at, end) == Seq::<DataBlock>::empty(),
{
    if at < raw.len() {
        let h = raw[at];
        assert((h & 0x1f) == h % 32) by (bit_vector);
    }
}

/// Blocks that were written one behind the other are read back in that order.
pub proof fn law_collection_read(raw: Seq<u8>, at: int, end: int, blocks: Seq<DataBlock>)
    requires
        forall|i: int| 0 <= i < blocks.len() ==> writable(#[trigger] blocks[i]),
        0 <= at,
        at + collection_bytes(blocks).len() <= end,
        at + collection_bytes(blocks).len() <= raw.len(),
        raw.subrange(at, at + collection_bytes(blocks).len()) == collection_bytes(blocks),
    ensures
        blocks_from(raw, at, end) == blocks + blocks_from(
            raw,
            at + collection_bytes(blocks).len(),
            end,
        ),
    decreases blocks.len(),
{
    let bytes = collection_bytes(blocks);
    if blocks.len() == 0 {
        assert(blocks + blocks_from(raw, at, end) == blocks_from(raw, at, end));
    } else {
        let b = blocks[0];
        let others = blocks.skip(1);
        let n = block_bytes(b).len() as int;
        assert(writable(b));
        assert(raw.subrange(at, at + n) == block_bytes(b)) by {
            assert(bytes.take(n) == block_bytes(b));
            assert(raw.subrange(at, at + bytes.len()).take(n) == raw.subrange(at, at + n));
        }
        law_block_read(raw, at, end, b);
        assert(raw.subrange(at + n, at + bytes.len()) == collection_bytes(others)) by {
            assert(bytes.skip(n) == collection_bytes(others));
            assert(raw.subrange(at, at + bytes.len()).skip(n) == raw.subrange(
                at + n,
                at + bytes.len(),
            ));
        }
        assert forall|i: int| 0 <= i < others.len() implies writable(#[trigger] others[i]) by {
            assert(others[i] == blocks[i + 1]);
        }
        law_collection_read(raw, at + n, end, others);
        let later = blocks_from(raw, at + bytes.len(), end);
        assert(seq![b] + (others + later) == blocks + later);
    }
}

/// A CTA extension behind any whole blocks is read back: its data blocks come
/// before those of the extensions behind it, and what stands behind its blocks
/// is not read.
pub proof fn law_extension_read(
    front: Seq<u8>,
    revision: u8,
    flags: u8,
    blocks: Seq<DataBlock>,
    rest: Seq<u8>,
    back: Seq<u8>,
)
    requires
        forall|i: int| 0 <= i < blocks.len() ==> writable(#[trigger] blocks[i]),
        extension_bytes(revision, flags, blocks, rest).len() == 128,
    ensures
        ({
            let raw = front + extension_bytes(revision, flags, blocks, rest) + back;
            &&& extension_blocks(raw, front.len() as int) == blocks + extension_blocks(
                raw,
                front.len() as int + 128,
            )
            &&& front.len() == 128 ==> data_blocks(raw) == blocks + extension_blocks(raw, 256)
        }),
{
    let ext = extension_bytes(revision, flags, blocks, rest);
    let raw = front + ext + back;
    let bs = front.len() as int;
    let bytes = collection_bytes(blocks);
    assert(raw.subrange(bs, bs + 128) == ext);
    assert(ext[0] == 0x02 && ext[2] == 4 + bytes.len());
    assert(raw[bs] == ext[0] && raw[bs + 2] == ext[2]);
    assert(raw.subrange(bs + 4, bs + 4 + bytes.len()) == bytes) by {
        assert(ext.subrange(4, 4 + bytes.len() as int) == bytes);
    }
    let end = bs + raw[bs + 2];
    law_collection_read(raw, bs + 4, end, blocks);
    law_walk_ends(raw, end, end);
    assert(blocks + Seq::<DataBlock>::empty() == blocks);
}

/// An extension of another kind declares nothing, and neither does a block
/// that is cut off.
pub proof fn law_other_extensions(raw: Seq<u8>, bs: int)
    requires
        0 <= bs,
    ensures
        bs + 128 <= raw.len() && raw[bs] != 0x02 ==> extension_blocks(raw, bs) == extension_blocks(
            raw,
            bs + 128,
        ),
        bs + 128 > raw.len() ==> extension_blocks(raw, bs) == Seq::<DataBlock>::empty(),
        data_blocks(raw) == extension_blocks(raw, 128),
{
    let later = extension_blocks(raw, bs + 128);
    assert(Seq::<DataBlock>::empty() + later == later);
}

/// The third byte of a CTA extension alone says where the walk over its blocks
/// ends, also where that lies before its first block or behind the extension;
/// the next extension is read from its own start on.
pub proof fn law_extension_end(raw: Seq<u8>, bs: int)
    requires
        0 <= bs,
        bs + 128 <= raw.len(),
        raw[bs] == 0x02,
    ensures
        extension_blocks(raw, bs) == blocks_from(raw, bs + 4, bs + raw[bs + 2]) + extension_blocks(
            raw,
            bs + 128,
        ),
        raw[bs + 2] <= 4 ==> extension_blocks(raw, bs) == extension_blocks(raw, bs + 128),
{
    if raw[bs + 2] <= 4 {
        law_walk_ends(raw, bs + 4, bs + raw[bs + 2]);
        let later = extension_blocks(raw, bs + 128);
        assert(Seq::<DataBlock>::empty() + later == later);
    }
}

} // verus!
