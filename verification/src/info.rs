//! High-level entry point: parse an EDID blob into an immutable object
//! graph plus one aggregated conformance message.
//!
//! A buffer too short for a base block or without the EDID header magic is
//! a hard failure; checksum mismatches and other spec deviations are soft:
//! parsing still succeeds and the deviations accumulate into a single
//! human-readable message.

use vstd::prelude::*;

use crate::bytes::{ascii_string, block_sum_ok, spec_block_sum_ok};
use crate::cta::{CtaModel, DataBlockModel, HdrStaticMetadataBlock};
use crate::edid::{DisplayDescriptorModel, Edid, EdidModel, ExtensionModel};
use vstd::string::StringExecFns;

verus! {

/// Parsing the EDID blob failed: the buffer cannot hold a base block or
/// does not start with the EDID header magic.
#[derive(Debug, Clone, Copy, PartialEq, Eq)]
pub struct ParseFailed;

/// Display HDR static metadata summary, from the CTA HDR static metadata
/// block when one is present.
///
/// Luminances are in 0.000001 cd/m² with 0 meaning unknown.  When no HDR
/// static metadata exists all luminances are zero and only the traditional
/// SDR transfer function is flagged.
#[derive(Debug, Clone, Copy, PartialEq, Eq)]
pub struct HdrStaticMetadata {
    pub desired_content_max_luminance: u64,
    pub desired_content_max_frame_avg_luminance: u64,
    pub desired_content_min_luminance: u64,
    pub type1: bool,
    pub traditional_sdr: bool,
    pub traditional_hdr: bool,
    pub pq: bool,
    pub hlg: bool,
}

/// CIE 1931 2-degree observer chromaticity coordinates, as the raw 10-bit
/// binary fractions the EDID stores (divide by 1024).
#[derive(Debug, Clone, Copy, PartialEq, Eq)]
pub struct ChromaticityCie1931 {
    pub x: u16,
    pub y: u16,
}

/// Display color primaries and default white point, from the base block
/// chromaticity coordinates.
#[derive(Debug, Clone, Copy, PartialEq, Eq)]
pub struct ColorPrimaries {
    pub has_primaries: bool,
    pub has_default_white_point: bool,
    pub primary: [ChromaticityCie1931; 3],
    pub default_white: ChromaticityCie1931,
}

/// Additional signal colorimetry encodings the display supports, from the
/// CTA colorimetry data block when one is present.
#[derive(Debug, Clone, Copy, PartialEq, Eq)]
pub struct SupportedSignalColorimetry {
    pub bt2020_cycc: bool,
    pub bt2020_ycc: bool,
    pub bt2020_rgb: bool,
    pub st2113_rgb: bool,
    pub ictcp: bool,
}

// ---------------------------------------------------------------------------
// Spec-level parse outcome.
// ---------------------------------------------------------------------------

/// The fixed 8-byte EDID header magic.
pub open spec fn spec_magic_ok(d: Seq<u8>) -> bool
    recommends
        d.len() >= 8,
{
    &&& d[0] == 0x00
    &&& d[1] == 0xFF
    &&& d[2] == 0xFF
    &&& d[3] == 0xFF
    &&& d[4] == 0xFF
    &&& d[5] == 0xFF
    &&& d[6] == 0xFF
    &&& d[7] == 0x00
}

/// Whether parsing succeeds: the buffer holds a base block that starts
/// with the header magic.
pub open spec fn spec_parse_ok(d: Seq<u8>) -> bool {
    d.len() >= 128 && spec_magic_ok(d)
}

/// The conformance messages of the extension blocks among the first `n`.
pub open spec fn spec_ext_msgs_prefix(d: Seq<u8>, n: int) -> Seq<char>
    recommends
        0 <= n,
        128 + n * 128 <= d.len(),
    decreases n,
{
    if n <= 0 {
        Seq::empty()
    } else {
        spec_ext_msgs_prefix(d, n - 1) + (if !spec_block_sum_ok(d, 128 * n) {
            "an extension block has an invalid checksum\n"@
        } else {
            Seq::<char>::empty()
        })
    }
}

/// The single aggregated conformance message of a parsed buffer; empty
/// when the blob is fully conformant.
pub open spec fn spec_failure_msg(d: Seq<u8>) -> Seq<char>
    recommends
        d.len() >= 128,
{
    let base: Seq<char> = if !spec_block_sum_ok(d, 0) {
        "base block has an invalid checksum\n"@
    } else {
        Seq::<char>::empty()
    };
    let count: Seq<char> = if d[126] != crate::edid::spec_ext_count(d) || d.len() % 128 != 0 {
        "declared extension count does not match the buffer length\n"@
    } else {
        Seq::<char>::empty()
    };
    base + count + spec_ext_msgs_prefix(d, crate::edid::spec_ext_count(d))
}

/// Ghost model of a parse result.
pub struct InfoModel {
    pub edid: Option<EdidModel>,
    pub failure_msg: Option<Seq<char>>,
    pub make: Option<Seq<char>>,
    pub model: Option<Seq<char>>,
    pub serial: Option<Seq<char>>,
}

/// The three manufacturer letters as a character sequence.
pub open spec fn spec_make(d: Seq<u8>) -> Seq<char>
    recommends
        d.len() >= 128,
{
    seq![
        crate::edid::spec_manufacturer_char(d, 0),
        crate::edid::spec_manufacturer_char(d, 1),
        crate::edid::spec_manufacturer_char(d, 2),
    ]
}

pub open spec fn spec_hex_digit(v: int) -> char
    recommends
        0 <= v < 16,
{
    if v < 10 {
        (48 + v) as char
    } else {
        (55 + v) as char
    }
}

pub open spec fn spec_hex16(v: u16) -> Seq<char> {
    seq![
        spec_hex_digit(v as int / 4096),
        spec_hex_digit((v as int / 256) % 16),
        spec_hex_digit((v as int / 16) % 16),
        spec_hex_digit(v as int % 16),
    ]
}

pub open spec fn spec_hex32(v: u32) -> Seq<char> {
    spec_hex16((v / 0x10000) as u16) + spec_hex16((v % 0x10000) as u16)
}

/// The first display descriptor with the given tag, scanning in order.
pub open spec fn spec_first_descriptor_text(
    descs: Seq<DisplayDescriptorModel>,
    tag: crate::edid::DisplayDescriptorTag,
) -> Option<Seq<char>>
    decreases descs.len(),
{
    if descs.len() == 0 {
        None
    } else if descs[0].tag == tag && descs[0].text is Some {
        descs[0].text
    } else {
        spec_first_descriptor_text(descs.drop_first(), tag)
    }
}

/// The model string: the product name descriptor when present, else the
/// product code in hexadecimal.
pub open spec fn spec_model_str(d: Seq<u8>) -> Seq<char>
    recommends
        d.len() >= 128,
{
    match spec_first_descriptor_text(
        crate::edid::spec_display_descriptors(d),
        crate::edid::DisplayDescriptorTag::ProductName,
    ) {
        Some(t) => t,
        None => seq!['0', 'x'] + spec_hex16(crate::bytes::spec_le16(d[10], d[11])),
    }
}

/// The serial string: the product serial descriptor when present, else a
/// nonzero serial number in hexadecimal, else nothing.
pub open spec fn spec_serial_str(d: Seq<u8>) -> Option<Seq<char>>
    recommends
        d.len() >= 128,
{
    match spec_first_descriptor_text(
        crate::edid::spec_display_descriptors(d),
        crate::edid::DisplayDescriptorTag::ProductSerial,
    ) {
        Some(t) => Some(t),
        None => match crate::edid::spec_serial(d) {
            Some(n) => Some(seq!['0', 'x'] + spec_hex32(n)),
            None => None,
        },
    }
}

/// What a successful parse guarantees of the produced model.
pub open spec fn spec_info_matches(m: InfoModel, d: Seq<u8>) -> bool
    recommends
        d.len() >= 128,
{
    &&& m.edid is Some
    &&& crate::edid::spec_edid_matches(m.edid->0, d)
    &&& (spec_failure_msg(d).len() == 0 ==> m.failure_msg is None)
    &&& (spec_failure_msg(d).len() > 0 ==> m.failure_msg == Some(spec_failure_msg(d)))
    &&& m.make == Some(spec_make(d))
    &&& m.model == Some(spec_model_str(d))
    &&& m.serial == spec_serial_str(d)
}

// ---------------------------------------------------------------------------
// The Info handle.
// ---------------------------------------------------------------------------

/// Information about a display device, created by
/// [`Info::parse_edid`](Info::parse_edid).
#[derive(Debug, Clone, PartialEq, Eq)]
pub struct Info {
    edid: Option<Edid>,
    failure_msg: Option<String>,
    make: Option<String>,
    model: Option<String>,
    serial: Option<String>,
}

impl View for Info {
    type V = InfoModel;

    closed spec fn view(&self) -> InfoModel {
        InfoModel {
            edid: match self.edid {
                Some(ref e) => Some(e.model()),
                None => None,
            },
            failure_msg: match self.failure_msg {
                Some(ref s) => Some(s@),
                None => None,
            },
            make: match self.make {
                Some(ref s) => Some(s@),
                None => None,
            },
            model: match self.model {
                Some(ref s) => Some(s@),
                None => None,
            },
            serial: match self.serial {
                Some(ref s) => Some(s@),
                None => None,
            },
        }
    }
}

impl Info {
    /// The EDID this information was parsed from.
    pub fn edid(&self) -> (r: Option<&Edid>)
        ensures
            r is Some <==> self@.edid is Some,
            r is Some ==> r->0.model() == self@.edid->0,
    {
        match &self.edid {
            Some(e) => Some(e),
            None => None,
        }
    }

    /// The aggregated conformance failure message; `None` when the blob
    /// conforms to the relevant specifications.
    pub fn failure_msg(&self) -> (r: Option<&String>)
        ensures
            r is Some <==> self@.failure_msg is Some,
            r is Some ==> r->0@ == self@.failure_msg->0,
    {
        match &self.failure_msg {
            Some(s) => Some(s),
            None => None,
        }
    }

    /// The make of the display device (the PNP manufacturer letters).
    pub fn make(&self) -> (r: Option<String>)
        ensures
            r is Some <==> self@.make is Some,
            r is Some ==> r->0@ == self@.make->0,
    {
        match &self.make {
            Some(s) => Some(s.clone()),
            None => None,
        }
    }

    /// The model of the display device: the product name string, or the
    /// product code in hexadecimal.
    pub fn model(&self) -> (r: Option<String>)
        ensures
            r is Some <==> self@.model is Some,
            r is Some ==> r->0@ == self@.model->0,
    {
        match &self.model {
            Some(s) => Some(s.clone()),
            None => None,
        }
    }

    /// The serial of the display device: the serial descriptor string, or
    /// a nonzero serial number in hexadecimal.
    pub fn serial(&self) -> (r: Option<String>)
        ensures
            r is Some <==> self@.serial is Some,
            r is Some ==> r->0@ == self@.serial->0,
    {
        match &self.serial {
            Some(s) => Some(s.clone()),
            None => None,
        }
    }

    /// Parse an EDID blob.
    ///
    /// A buffer shorter than a base block or without the header magic is
    /// rejected; every other deviation is reported through
    /// [`failure_msg`](Info::failure_msg) on an otherwise decoded result.
    pub fn parse_edid(data: &[u8]) -> (r: Result<Info, ParseFailed>)
        ensures
            r is Ok <==> spec_parse_ok(data@),
            r is Ok ==> spec_info_matches(r->Ok_0@, data@),
    {
        let n = data.len();
        if n < 128 {
            return Err(ParseFailed);
        }
        if !(data[0] == 0x00 && data[1] == 0xFF && data[2] == 0xFF && data[3] == 0xFF && data[4]
            == 0xFF && data[5] == 0xFF && data[6] == 0xFF && data[7] == 0x00) {
            return Err(ParseFailed);
        }
        let edid = crate::edid::decode_edid(data);
        let msg = build_failure_msg(data);
        let failure_msg: Option<String> = if msg.as_str().is_empty() {
            proof {
                assert(msg@.len() == 0);
            }
            None
        } else {
            Some(msg)
        };
        let make = Some(make_string(data));
        let model = Some(model_string(data, &edid));
        let serial = serial_string(data, &edid);
        Ok(Info { edid: Some(edid), failure_msg, make, model, serial })
    }
}

// ---------------------------------------------------------------------------
// String builders.
// ---------------------------------------------------------------------------

fn build_failure_msg(d: &[u8]) -> (r: String)
    requires
        d@.len() >= 128,
    ensures
        r@ == spec_failure_msg(d@),
{
    let n = d.len();
    let count = (n - 128) / 128;
    let mut msg = String::new();
    if !block_sum_ok(d, 0) {
        msg.append("base block has an invalid checksum\n");
    }
    if d[126] as usize != count || n % 128 != 0 {
        msg.append("declared extension count does not match the buffer length\n");
    }
    let ghost head: Seq<char> = msg@;
    let mut i: usize = 0;
    while i < count
        invariant
            0 <= i <= count,
            count == crate::edid::spec_ext_count(d@),
            d@.len() >= 128,
            d@.len() <= usize::MAX,
            msg@ == head + spec_ext_msgs_prefix(d@, i as int),
        decreases count - i,
    {
        proof {
            assert(128 * (i + 1) + 128 <= d@.len()) by {
                assert(128 * (i + 1) <= 128 * count) by (nonlinear_arith)
                    requires
                        i + 1 <= count,
                ;
                assert(128 * count <= d@.len() - 128) by (nonlinear_arith)
                    requires
                        count == (d@.len() - 128) as int / 128,
                        d@.len() >= 128,
                ;
            }
        }
        let off: usize = 128 * (i + 1);
        if !block_sum_ok(d, off) {
            msg.append("an extension block has an invalid checksum\n");
            proof {
                assert(msg@ =~= head + spec_ext_msgs_prefix(d@, i as int + 1));
            }
        } else {
            proof {
                assert(msg@ =~= head + spec_ext_msgs_prefix(d@, i as int + 1));
            }
        }
        i = i + 1;
    }
    proof {
        assert(msg@ =~= spec_failure_msg(d@));
    }
    msg
}

fn make_string(d: &[u8]) -> (r: String)
    requires
        d@.len() >= 128,
    ensures
        r@ == spec_make(d@),
{
    let mut bytes: Vec<u8> = Vec::new();
    bytes.push(64 + (d[8] / 4) % 32);
    bytes.push(64 + ((d[8] % 4) * 8 + d[9] / 32));
    bytes.push(64 + d[9] % 32);
    let s = ascii_string(&bytes);
    proof {
        assert(s@ =~= spec_make(d@));
    }
    s
}

fn hex_digit(v: u8) -> (r: u8)
    requires
        v < 16,
    ensures
        r as char == spec_hex_digit(v as int),
        r < 128,
{
    if v < 10 {
        48 + v
    } else {
        55 + v
    }
}

fn hex16_string(v: u16) -> (r: Vec<u8>)
    ensures
        r@.len() == 4,
        forall|i: int| 0 <= i < 4 ==> r@[i] < 128,
        Seq::new(4, |i: int| r@[i] as char) =~= spec_hex16(v),
{
    let mut out: Vec<u8> = Vec::new();
    out.push(hex_digit((v / 4096) as u8));
    out.push(hex_digit(((v / 256) % 16) as u8));
    out.push(hex_digit(((v / 16) % 16) as u8));
    out.push(hex_digit((v % 16) as u8));
    out
}

#[verifier::rlimit(60)]
fn model_string(d: &[u8], edid: &Edid) -> (r: String)
    requires
        d@.len() >= 128,
        crate::edid::spec_edid_matches(edid.model(), d@),
    ensures
        r@ == spec_model_str(d@),
{
    match first_descriptor_text(edid, crate::edid::DisplayDescriptorTag::ProductName) {
        Some(t) => t,
        None => {
            let digits = hex16_string(crate::bytes::le16(d[10], d[11]));
            let mut bytes: Vec<u8> = Vec::new();
            bytes.push(48);
            bytes.push(120);
            bytes.push(digits[0]);
            bytes.push(digits[1]);
            bytes.push(digits[2]);
            bytes.push(digits[3]);
            let s = ascii_string(&bytes);
            proof {
                assert(s@ =~= spec_model_str(d@));
            }
            s
        },
    }
}

#[verifier::rlimit(60)]
fn serial_string(d: &[u8], edid: &Edid) -> (r: Option<String>)
    requires
        d@.len() >= 128,
        crate::edid::spec_edid_matches(edid.model(), d@),
    ensures
        r is Some <==> spec_serial_str(d@) is Some,
        r is Some ==> r->0@ == spec_serial_str(d@)->0,
{
    match first_descriptor_text(edid, crate::edid::DisplayDescriptorTag::ProductSerial) {
        Some(t) => Some(t),
        None => {
            let raw = crate::bytes::le32(d[12], d[13], d[14], d[15]);
            if raw == 0 {
                None
            } else {
                let hi = hex16_string((raw / 0x10000) as u16);
                let lo = hex16_string((raw % 0x10000) as u16);
                let mut bytes: Vec<u8> = Vec::new();
                bytes.push(48);
                bytes.push(120);
                bytes.push(hi[0]);
                bytes.push(hi[1]);
                bytes.push(hi[2]);
                bytes.push(hi[3]);
                bytes.push(lo[0]);
                bytes.push(lo[1]);
                bytes.push(lo[2]);
                bytes.push(lo[3]);
                let s = ascii_string(&bytes);
                proof {
                    assert(s@ =~= seq!['0', 'x'] + spec_hex32(raw));
                }
                Some(s)
            }
        },
    }
}

/// The text of the first descriptor with the given tag.
fn first_descriptor_text(edid: &Edid, tag: crate::edid::DisplayDescriptorTag) -> (r: Option<
    String,
>)
    ensures
        r is Some <==> spec_first_descriptor_text(
            edid.model().display_descriptors,
            tag,
        ) is Some,
        r is Some ==> r->0@ == spec_first_descriptor_text(
            edid.model().display_descriptors,
            tag,
        )->0,
{
    let descs = edid.display_descriptors();
    let ghost all = edid.model().display_descriptors;
    let mut i: usize = 0;
    let len = descs.len();
    proof {
        assert(all.skip(0) =~= all);
    }
    while i < len
        invariant
            all == edid.model().display_descriptors,
            0 <= i <= len,
            len == descs@.len(),
            descs@.len() == all.len(),
            forall|j: int| 0 <= j < len ==> #[trigger] descs@[j].model() == all[j],
            spec_first_descriptor_text(all, tag) == spec_first_descriptor_text(
                all.skip(i as int),
                tag,
            ),
        decreases len - i,
    {
        let dsc = &descs[i];
        let t = dsc.tag();
        let txt = dsc.string();
        proof {
            assert(all.skip(i as int)[0] == all[i as int]);
            assert(all.skip(i as int).drop_first() =~= all.skip(i as int + 1));
        }
        if matches_tag(t, tag) {
            match txt {
                Some(s) => {
                    proof {
                        assert(all[i as int].text is Some);
                        assert(spec_first_descriptor_text(all.skip(i as int), tag) == all[
                            i as int
                        ].text);
                        assert(s@ == all[i as int].text->0);
                    }
                    return Some(s);
                },
                None => {},
            }
        }
        i = i + 1;
    }
    proof {
        assert(all.skip(len as int) =~= Seq::<DisplayDescriptorModel>::empty());
    }
    None
}

fn matches_tag(
    a: crate::edid::DisplayDescriptorTag,
    b: crate::edid::DisplayDescriptorTag,
) -> (r: bool)
    ensures
        r == (a == b),
{
    match (a, b) {
        (crate::edid::DisplayDescriptorTag::ProductSerial, crate::edid::DisplayDescriptorTag::ProductSerial) => true,
        (crate::edid::DisplayDescriptorTag::DataString, crate::edid::DisplayDescriptorTag::DataString) => true,
        (crate::edid::DisplayDescriptorTag::RangeLimits, crate::edid::DisplayDescriptorTag::RangeLimits) => true,
        (crate::edid::DisplayDescriptorTag::ProductName, crate::edid::DisplayDescriptorTag::ProductName) => true,
        (crate::edid::DisplayDescriptorTag::ColorPoint, crate::edid::DisplayDescriptorTag::ColorPoint) => true,
        (crate::edid::DisplayDescriptorTag::StdTimingIds, crate::edid::DisplayDescriptorTag::StdTimingIds) => true,
        (crate::edid::DisplayDescriptorTag::DcmData, crate::edid::DisplayDescriptorTag::DcmData) => true,
        (crate::edid::DisplayDescriptorTag::CvtTimingCodes, crate::edid::DisplayDescriptorTag::CvtTimingCodes) => true,
        (crate::edid::DisplayDescriptorTag::EstablishedTimingsIII, crate::edid::DisplayDescriptorTag::EstablishedTimingsIII) => true,
        (crate::edid::DisplayDescriptorTag::Dummy, crate::edid::DisplayDescriptorTag::Dummy) => true,
        _ => false,
    }
}

} // verus!

verus! {

// ---------------------------------------------------------------------------
// Derived summaries over the decoded graph.
// ---------------------------------------------------------------------------

/// The first CTA extension, scanning the extension list in order.
pub open spec fn spec_first_cta(exts: Seq<ExtensionModel>) -> Option<CtaModel>
    decreases exts.len(),
{
    if exts.len() == 0 {
        None
    } else if exts[0].cta is Some {
        exts[0].cta
    } else {
        spec_first_cta(exts.drop_first())
    }
}

/// The first HDR static metadata block among a CTA block list.
pub open spec fn spec_first_hdr_static(blocks: Seq<DataBlockModel>) -> Option<
    HdrStaticMetadataBlock,
>
    decreases blocks.len(),
{
    if blocks.len() == 0 {
        None
    } else if blocks[0].hdr_static is Some {
        blocks[0].hdr_static
    } else {
        spec_first_hdr_static(blocks.drop_first())
    }
}

/// The first colorimetry block among a CTA block list.
pub open spec fn spec_first_colorimetry(blocks: Seq<DataBlockModel>) -> Option<
    crate::cta::ColorimetryBlock,
>
    decreases blocks.len(),
{
    if blocks.len() == 0 {
        None
    } else if blocks[0].colorimetry is Some {
        blocks[0].colorimetry
    } else {
        spec_first_colorimetry(blocks.drop_first())
    }
}

/// The HDR summary a parsed blob yields: the first HDR static metadata
/// block when one exists, else the all-unknown default with only the
/// traditional SDR transfer function flagged.
pub open spec fn spec_hdr_summary(b: Option<HdrStaticMetadataBlock>) -> HdrStaticMetadata {
    match b {
        None => HdrStaticMetadata {
            desired_content_max_luminance: 0,
            desired_content_max_frame_avg_luminance: 0,
            desired_content_min_luminance: 0,
            type1: false,
            traditional_sdr: true,
            traditional_hdr: false,
            pq: false,
            hlg: false,
        },
        Some(blk) => HdrStaticMetadata {
            desired_content_max_luminance: match blk.desired_content_max_luminance {
                Some(x) => x,
                None => 0,
            },
            desired_content_max_frame_avg_luminance: match blk
                .desired_content_max_frame_avg_luminance {
                Some(x) => x,
                None => 0,
            },
            desired_content_min_luminance: match blk.desired_content_min_luminance {
                Some(x) => x,
                None => 0,
            },
            type1: match blk.descriptors {
                Some(ds) => ds.type1,
                None => false,
            },
            traditional_sdr: match blk.eotfs {
                Some(e) => e.traditional_sdr,
                None => true,
            },
            traditional_hdr: match blk.eotfs {
                Some(e) => e.traditional_hdr,
                None => false,
            },
            pq: match blk.eotfs {
                Some(e) => e.pq,
                None => false,
            },
            hlg: match blk.eotfs {
                Some(e) => e.hlg,
                None => false,
            },
        },
    }
}

/// The signal colorimetry summary: the BT.2020 and related flags of the
/// first colorimetry block, else all unsupported.
pub open spec fn spec_colorimetry_summary(b: Option<crate::cta::ColorimetryBlock>) -> SupportedSignalColorimetry {
    match b {
        None => SupportedSignalColorimetry {
            bt2020_cycc: false,
            bt2020_ycc: false,
            bt2020_rgb: false,
            st2113_rgb: false,
            ictcp: false,
        },
        Some(c) => SupportedSignalColorimetry {
            bt2020_cycc: c.bt2020_cycc,
            bt2020_ycc: c.bt2020_ycc,
            bt2020_rgb: c.bt2020_rgb,
            st2113_rgb: c.st2113_rgb,
            ictcp: c.ictcp,
        },
    }
}

/// The HDR static metadata block of the parsed blob's first CTA extension.
pub open spec fn spec_info_hdr_static(m: InfoModel) -> Option<HdrStaticMetadataBlock> {
    match m.edid {
        None => None,
        Some(e) => match spec_first_cta(e.extensions) {
            None => None,
            Some(c) => spec_first_hdr_static(c.data_blocks),
        },
    }
}

/// The colorimetry block of the parsed blob's first CTA extension.
pub open spec fn spec_info_colorimetry(m: InfoModel) -> Option<crate::cta::ColorimetryBlock> {
    match m.edid {
        None => None,
        Some(e) => match spec_first_cta(e.extensions) {
            None => None,
            Some(c) => spec_first_colorimetry(c.data_blocks),
        },
    }
}

impl Info {
    /// The first CTA extension block, when one exists.
    fn first_cta(&self) -> (r: Option<&crate::cta::CTA>)
        ensures
            r is Some <==> (self@.edid is Some && spec_first_cta(
                self@.edid->0.extensions,
            ) is Some),
            r is Some ==> Some(r->0.model()) == spec_first_cta(self@.edid->0.extensions),
    {
        let edid = match &self.edid {
            Some(e) => e,
            None => {
                return None;
            },
        };
        let exts = edid.extensions();
        let ghost all = edid.model().extensions;
        let len = exts.len();
        let mut i: usize = 0;
        proof {
            assert(all.skip(0) =~= all);
        }
        while i < len
            invariant
                all == self@.edid->0.extensions,
                self@.edid is Some,
                0 <= i <= len,
                len == exts@.len(),
                exts@.len() == all.len(),
                forall|j: int| 0 <= j < len ==> #[trigger] exts@[j].model() == all[j],
                spec_first_cta(all) == spec_first_cta(all.skip(i as int)),
            decreases len - i,
        {
            proof {
                assert(all.skip(i as int)[0] == all[i as int]);
                assert(all.skip(i as int).drop_first() =~= all.skip(i as int + 1));
            }
            match exts[i].cta_contents() {
                Some(c) => {
                    proof {
                        assert(all[i as int].cta is Some);
                        assert(spec_first_cta(all.skip(i as int)) == all[i as int].cta);
                    }
                    return Some(c);
                },
                None => {},
            }
            i = i + 1;
        }
        proof {
            assert(all.skip(len as int) =~= Seq::<ExtensionModel>::empty());
        }
        None
    }

    /// HDR static metadata support, as defined in ANSI/CTA-861 for the HDR
    /// static metadata data block.
    ///
    /// When no such block exists, all luminances are zero and only the
    /// traditional SDR transfer function is flagged as supported.
    pub fn hdr_static_metadata(&self) -> (r: HdrStaticMetadata)
        ensures
            r == spec_hdr_summary(spec_info_hdr_static(self@)),
    {
        let cta = match self.first_cta() {
            Some(c) => c,
            None => {
                return HdrStaticMetadata {
                    desired_content_max_luminance: 0,
                    desired_content_max_frame_avg_luminance: 0,
                    desired_content_min_luminance: 0,
                    type1: false,
                    traditional_sdr: true,
                    traditional_hdr: false,
                    pq: false,
                    hlg: false,
                };
            },
        };
        let blocks = cta.data_blocks();
        let ghost all = cta.model().data_blocks;
        let len = blocks.len();
        let mut i: usize = 0;
        proof {
            assert(all.skip(0) =~= all);
        }
        while i < len
            invariant
                Some(cta.model()) == spec_first_cta(self@.edid->0.extensions),
                self@.edid is Some,
                all == cta.model().data_blocks,
                0 <= i <= len,
                len == blocks@.len(),
                blocks@.len() == all.len(),
                forall|j: int| 0 <= j < len ==> #[trigger] blocks@[j].model() == all[j],
                spec_first_hdr_static(all) == spec_first_hdr_static(all.skip(i as int)),
            decreases len - i,
        {
            proof {
                assert(all.skip(i as int)[0] == all[i as int]);
                assert(all.skip(i as int).drop_first() =~= all.skip(i as int + 1));
            }
            match blocks[i].hdr_static_metadata() {
                Some(blk) => {
                    proof {
                        assert(all[i as int].hdr_static is Some);
                        assert(spec_first_hdr_static(all.skip(i as int)) == all[
                            i as int
                        ].hdr_static);
                    }
                    return HdrStaticMetadata {
                        desired_content_max_luminance: match blk.desired_content_max_luminance {
                            Some(x) => x,
                            None => 0,
                        },
                        desired_content_max_frame_avg_luminance: match blk
                            .desired_content_max_frame_avg_luminance {
                            Some(x) => x,
                            None => 0,
                        },
                        desired_content_min_luminance: match blk.desired_content_min_luminance {
                            Some(x) => x,
                            None => 0,
                        },
                        type1: match blk.descriptors {
                            Some(ds) => ds.type1,
                            None => false,
                        },
                        traditional_sdr: match blk.eotfs {
                            Some(e) => e.traditional_sdr,
                            None => true,
                        },
                        traditional_hdr: match blk.eotfs {
                            Some(e) => e.traditional_hdr,
                            None => false,
                        },
                        pq: match blk.eotfs {
                            Some(e) => e.pq,
                            None => false,
                        },
                        hlg: match blk.eotfs {
                            Some(e) => e.hlg,
                            None => false,
                        },
                    };
                },
                None => {},
            }
            i = i + 1;
        }
        proof {
            assert(all.skip(len as int) =~= Seq::<DataBlockModel>::empty());
        }
        HdrStaticMetadata {
            desired_content_max_luminance: 0,
            desired_content_max_frame_avg_luminance: 0,
            desired_content_min_luminance: 0,
            type1: false,
            traditional_sdr: true,
            traditional_hdr: false,
            pq: false,
            hlg: false,
        }
    }

    /// Signal colorimetry encodings supported in addition to the default
    /// RGB colorimetry, from the CTA colorimetry data block.
    pub fn supported_signal_colorimetry(&self) -> (r: SupportedSignalColorimetry)
        ensures
            r == spec_colorimetry_summary(spec_info_colorimetry(self@)),
    {
        let cta = match self.first_cta() {
            Some(c) => c,
            None => {
                return SupportedSignalColorimetry {
                    bt2020_cycc: false,
                    bt2020_ycc: false,
                    bt2020_rgb: false,
                    st2113_rgb: false,
                    ictcp: false,
                };
            },
        };
        let blocks = cta.data_blocks();
        let ghost all = cta.model().data_blocks;
        let len = blocks.len();
        let mut i: usize = 0;
        proof {
            assert(all.skip(0) =~= all);
        }
        while i < len
            invariant
                Some(cta.model()) == spec_first_cta(self@.edid->0.extensions),
                self@.edid is Some,
                all == cta.model().data_blocks,
                0 <= i <= len,
                len == blocks@.len(),
                blocks@.len() == all.len(),
                forall|j: int| 0 <= j < len ==> #[trigger] blocks@[j].model() == all[j],
                spec_first_colorimetry(all) == spec_first_colorimetry(all.skip(i as int)),
            decreases len - i,
        {
            proof {
                assert(all.skip(i as int)[0] == all[i as int]);
                assert(all.skip(i as int).drop_first() =~= all.skip(i as int + 1));
            }
            match blocks[i].colorimetry() {
                Some(c) => {
                    proof {
                        assert(all[i as int].colorimetry is Some);
                        assert(spec_first_colorimetry(all.skip(i as int)) == all[
                            i as int
                        ].colorimetry);
                    }
                    return SupportedSignalColorimetry {
                        bt2020_cycc: c.bt2020_cycc,
                        bt2020_ycc: c.bt2020_ycc,
                        bt2020_rgb: c.bt2020_rgb,
                        st2113_rgb: c.st2113_rgb,
                        ictcp: c.ictcp,
                    };
                },
                None => {},
            }
            i = i + 1;
        }
        proof {
            assert(all.skip(len as int) =~= Seq::<DataBlockModel>::empty());
        }
        SupportedSignalColorimetry {
            bt2020_cycc: false,
            bt2020_ycc: false,
            bt2020_rgb: false,
            st2113_rgb: false,
            ictcp: false,
        }
    }

    /// The default RGB colorimetry parameters, from the base block
    /// chromaticity coordinates (raw 10-bit fractions).
    pub fn default_color_primaries(&self) -> (r: Option<ColorPrimaries>)
        ensures
            r is Some <==> self@.edid is Some,
            r is Some ==> {
                let c = self@.edid->0.chromaticity_coords;
                &&& r->0.has_primaries
                &&& r->0.has_default_white_point
                &&& r->0.primary@ =~= seq![
                    ChromaticityCie1931 { x: c.red_x, y: c.red_y },
                    ChromaticityCie1931 { x: c.green_x, y: c.green_y },
                    ChromaticityCie1931 { x: c.blue_x, y: c.blue_y },
                ]
                &&& r->0.default_white == ChromaticityCie1931 { x: c.white_x, y: c.white_y }
            },
    {
        match &self.edid {
            None => None,
            Some(e) => {
                let c = e.chromaticity_coords();
                Some(
                    ColorPrimaries {
                        has_primaries: true,
                        has_default_white_point: true,
                        primary: [
                            ChromaticityCie1931 { x: c.red_x, y: c.red_y },
                            ChromaticityCie1931 { x: c.green_x, y: c.green_y },
                            ChromaticityCie1931 { x: c.blue_x, y: c.blue_y },
                        ],
                        default_white: ChromaticityCie1931 { x: c.white_x, y: c.white_y },
                    },
                )
            },
        }
    }

    /// The display's default transfer characteristic exponent times one
    /// hundred; `None` when unknown.
    pub fn default_gamma(&self) -> (r: Option<u16>)
        ensures
            self@.edid is Some ==> r == self@.edid->0.basic_gamma,
            self@.edid is None ==> r is None,
    {
        match &self.edid {
            None => None,
            Some(e) => e.basic_gamma(),
        }
    }
}

} // verus!

verus! {

// ---------------------------------------------------------------------------
// Laws of the parse outcome.
// ---------------------------------------------------------------------------

/// Corrupting any single byte of a checksum-conformant base block outside
/// the header magic leaves the blob parseable but makes the conformance
/// message non-empty.
pub proof fn lemma_corrupted_base_block_is_reported(d: Seq<u8>, i: int, v: u8)
    requires
        d.len() >= 128,
        spec_parse_ok(d),
        spec_block_sum_ok(d, 0),
        8 <= i < 128,
        v != d[i],
    ensures
        spec_parse_ok(d.update(i, v)),
        spec_failure_msg(d.update(i, v)).len() > 0,
{
    let d2 = d.update(i, v);
    assert(spec_magic_ok(d2));
    crate::bytes::lemma_single_corruption_breaks_checksum(d, 0, i, v);
    reveal_strlit("base block has an invalid checksum\n");
    assert(spec_failure_msg(d2).len() >= "base block has an invalid checksum\n"@.len());
}

/// The extension list length always equals the base block's declared
/// extension count when the buffer holds exactly that many extension
/// blocks, whether or not any tag is recognized.
pub proof fn lemma_extension_count_matches(d: Seq<u8>)
    requires
        d.len() == 128 + 128 * (d[126] as int),
    ensures
        crate::edid::spec_extensions(d).len() == d[126] as int,
{
    assert(crate::edid::spec_ext_count(d) == d[126] as int) by {
        assert((128 * (d[126] as int)) / 128 == d[126] as int) by (nonlinear_arith);
    }
    lemma_spec_extensions_len(d, d[126] as int);
}

proof fn lemma_spec_extensions_len(d: Seq<u8>, n: int)
    requires
        0 <= n,
    ensures
        crate::edid::spec_extensions_prefix(d, n).len() == n,
    decreases n,
{
    if n > 0 {
        lemma_spec_extensions_len(d, n - 1);
    }
}

/// Field-wise agreement of two decoded base blocks (the manufacturer array
/// is compared through its character view).
pub open spec fn spec_edid_models_agree(a: EdidModel, b: EdidModel) -> bool {
    &&& a.version == b.version
    &&& a.revision == b.revision
    &&& a.vendor_product.manufacturer@ == b.vendor_product.manufacturer@
    &&& a.vendor_product.product == b.vendor_product.product
    &&& a.vendor_product.serial == b.vendor_product.serial
    &&& a.vendor_product.manufacture_week == b.vendor_product.manufacture_week
    &&& a.vendor_product.manufacture_year == b.vendor_product.manufacture_year
    &&& a.vendor_product.model_year == b.vendor_product.model_year
    &&& a.video_input_analog == b.video_input_analog
    &&& a.video_input_digital == b.video_input_digital
    &&& a.screen_size == b.screen_size
    &&& a.basic_gamma == b.basic_gamma
    &&& a.dpms == b.dpms
    &&& a.display_color_type == b.display_color_type
    &&& a.color_encoding_formats == b.color_encoding_formats
    &&& a.misc_features == b.misc_features
    &&& a.chromaticity_coords == b.chromaticity_coords
    &&& a.established_timings == b.established_timings
    &&& a.standard_timings == b.standard_timings
    &&& a.detailed_timing_defs == b.detailed_timing_defs
    &&& a.display_descriptors == b.display_descriptors
    &&& a.extensions == b.extensions
}

/// Parsing is deterministic: any two parse results for the same byte
/// buffer carry identical field values throughout the object graph, so
/// parsing a buffer twice yields equal graphs.
pub proof fn lemma_parse_deterministic(m1: InfoModel, m2: InfoModel, d: Seq<u8>)
    requires
        d.len() >= 128,
        spec_info_matches(m1, d),
        spec_info_matches(m2, d),
    ensures
        m1.edid is Some && m2.edid is Some,
        spec_edid_models_agree(m1.edid->0, m2.edid->0),
        m1.failure_msg == m2.failure_msg,
        m1.make == m2.make,
        m1.model == m2.model,
        m1.serial == m2.serial,
{
    if spec_failure_msg(d).len() == 0 {
        assert(m1.failure_msg is None && m2.failure_msg is None);
    } else {
        assert(m1.failure_msg == Some(spec_failure_msg(d)));
        assert(m2.failure_msg == Some(spec_failure_msg(d)));
    }
}

} // verus!

verus! {

/// A conformant report vouches for every checksum: when the aggregated
/// message is empty, the base block and every extension block sum to zero
/// modulo 256.
pub proof fn lemma_conformant_blob_has_valid_checksums(d: Seq<u8>)
    requires
        d.len() >= 128,
        spec_failure_msg(d).len() == 0,
    ensures
        spec_block_sum_ok(d, 0),
        forall|i: int|
            0 <= i < crate::edid::spec_ext_count(d) ==> spec_block_sum_ok(
                d,
                #[trigger] (128 * (i + 1)),
            ),
{
    reveal_strlit("base block has an invalid checksum\n");
    reveal_strlit("an extension block has an invalid checksum\n");
    lemma_empty_ext_msgs(d, crate::edid::spec_ext_count(d));
}

proof fn lemma_empty_ext_msgs(d: Seq<u8>, n: int)
    requires
        0 <= n,
        spec_ext_msgs_prefix(d, n).len() == 0,
    ensures
        forall|i: int| 0 <= i < n ==> spec_block_sum_ok(d, #[trigger] (128 * (i + 1))),
    decreases n,
{
    reveal_strlit("an extension block has an invalid checksum\n");
    if n > 0 {
        lemma_empty_ext_msgs(d, n - 1);
        assert(spec_block_sum_ok(d, 128 * n));
        assert(forall|i: int|
            0 <= i < n ==> #[trigger] (128 * (i + 1)) == 128 * i + 128 && spec_block_sum_ok(
                d,
                128 * (i + 1),
            ));
    }
}

} // verus!
