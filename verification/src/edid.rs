//! What a display says of itself: its name, its interface and its features.

use vstd::prelude::*;
use vstd::slice::slice_subrange;
use vstd::utf8::{decode_utf8, encode_utf8, encode_utf8_decode_utf8, encode_utf8_valid_utf8,
    is_ascii_chars, is_ascii_chars_encode_utf8, valid_utf8};

use crate::cta::{data_blocks, features, read_features, DataBlock, Features, HdmiVersion};
use crate::number::{decimal, hex_byte, hex_byte_text};
use crate::text::{ascii_lowercase, contains, contains_lowercased, find_char, first_index, has_text,
    law_found, law_found_stands, law_lowercase, law_trim_around, lemma_first_index, replace_char,
    replaced, trim, trimmed, white_space};

verus! {

/// What the system shows of a connector beside its EDID.
pub struct ConnectorProbe {
    /// The connector's directory name, such as `card1-DP-2`.
    pub connector_dir: String,
    /// Whether the driver offers stream compression on the connector.
    pub dsc_enable: bool,
    /// The DisplayPort configuration data, where it can be read.
    pub dpcd: Option<Vec<u8>>,
    /// Whether the machine has an HDMI-CEC device.
    pub cec: bool,
    /// The panel type that the driver reports, where it reports one.
    pub panel_type: Option<String>,
}

/// The contents of an optional text.
pub open spec fn opt_text(t: Option<String>) -> Option<Seq<char>> {
    match t {
        Some(s) => Some(s@),
        None => None,
    }
}

/// The contents of a connector probe.
pub struct ConnectorProbeView {
    pub connector_dir: Seq<char>,
    pub dsc_enable: bool,
    pub dpcd: Option<Seq<u8>>,
    pub cec: bool,
    pub panel_type: Option<Seq<char>>,
}

impl View for ConnectorProbe {
    type V = ConnectorProbeView;

    open spec fn view(&self) -> ConnectorProbeView {
        ConnectorProbeView {
            connector_dir: self.connector_dir@,
            dsc_enable: self.dsc_enable,
            dpcd: match self.dpcd {
                Some(d) => Some(d@),
                None => None,
            },
            cec: self.cec,
            panel_type: opt_text(self.panel_type),
        }
    }
}

/// A display and its capabilities.
#[derive(Debug)]
pub struct DisplayInfo {
    pub name: String,
    pub connector_dir: String,
    pub hdr10: bool,
    pub hlg: bool,
    pub hdr10plus: bool,
    pub dolby: bool,
    pub bt2020: bool,
    pub dci_p3: bool,
    pub dsc: bool,
    pub cec: bool,
    pub max_lum_nits: u32,
    pub hdmi_ver: Option<String>,
    pub dp_ver: Option<String>,
    pub is_oled: bool,
}

/// The contents of a display description.
pub struct DisplayInfoView {
    pub name: Seq<char>,
    pub connector_dir: Seq<char>,
    pub hdr10: bool,
    pub hlg: bool,
    pub hdr10plus: bool,
    pub dolby: bool,
    pub bt2020: bool,
    pub dci_p3: bool,
    pub dsc: bool,
    pub cec: bool,
    pub max_lum_nits: u32,
    pub hdmi_ver: Option<Seq<char>>,
    pub dp_ver: Option<Seq<char>>,
    pub is_oled: bool,
}

impl View for DisplayInfo {
    type V = DisplayInfoView;

    open spec fn view(&self) -> DisplayInfoView {
        DisplayInfoView {
            name: self.name@,
            connector_dir: self.connector_dir@,
            hdr10: self.hdr10,
            hlg: self.hlg,
            hdr10plus: self.hdr10plus,
            dolby: self.dolby,
            bt2020: self.bt2020,
            dci_p3: self.dci_p3,
            dsc: self.dsc,
            cec: self.cec,
            max_lum_nits: self.max_lum_nits,
            hdmi_ver: opt_text(self.hdmi_ver),
            dp_ver: opt_text(self.dp_ver),
            is_oled: self.is_oled,
        }
    }
}

/// `raw` holds a display name descriptor at `i`.
pub open spec fn name_descriptor_at(raw: Seq<u8>, i: int) -> bool {
    &&& i + 17 < raw.len()
    &&& raw[i] == 0
    &&& raw[i + 1] == 0
    &&& raw[i + 2] == 0
    &&& raw[i + 3] == 0xfc
}

/// The first of the four descriptors that holds a display name.
pub open spec fn name_descriptor(raw: Seq<u8>) -> Option<int> {
    if name_descriptor_at(raw, 54) {
        Some(54)
    } else if name_descriptor_at(raw, 72) {
        Some(72)
    } else if name_descriptor_at(raw, 90) {
        Some(90)
    } else if name_descriptor_at(raw, 108) {
        Some(108)
    } else {
        None
    }
}

/// The bytes before the first line feed; all of them without one.
pub open spec fn before_line_feed(s: Seq<u8>) -> Seq<u8>
    decreases s.len(),
{
    if s.len() == 0 || s[0] == 0x0a {
        Seq::empty()
    } else {
        seq![s[0]] + before_line_feed(s.skip(1))
    }
}

/// The bytes of the display name: up to thirteen, ended by a line feed.
pub open spec fn name_bytes(raw: Seq<u8>) -> Seq<u8> {
    match name_descriptor(raw) {
        Some(i) => before_line_feed(raw.subrange(i + 5, i + 18)),
        None => Seq::empty(),
    }
}

/// The text that `String::from_utf8_lossy` makes of some bytes.
pub uninterp spec fn utf8_lossy(bytes: Seq<u8>) -> Seq<char>;

/// Calls `String::from_utf8_lossy`. Claimed of it: the text depends on the
/// bytes alone, and bytes that are valid UTF-8 are decoded as they stand.
/// Where the replacement characters go in other bytes is left unsaid.
#[verifier::external_body]
fn from_utf8_lossy(bytes: &[u8]) -> (r: String)
    ensures
        r@ == utf8_lossy(bytes@),
        valid_utf8(bytes@) ==> r@ == decode_utf8(bytes@),
{
    String::from_utf8_lossy(bytes).into_owned()
}

/// How many bytes stand before the first line feed.
fn line_length(s: &[u8]) -> (r: usize)
    ensures
        r <= s@.len(),
        s@.take(r as int) == before_line_feed(s@),
{
    let n: usize = s.len();
    let mut i: usize = 0;
    assert(s@.skip(0) == s@);
    assert(s@.take(0) + before_line_feed(s@) == before_line_feed(s@));
    while i < n && s[i] != 0x0a
        invariant
            i <= n,
            n == s@.len(),
            s@.take(i as int) + before_line_feed(s@.skip(i as int)) == before_line_feed(s@),
        decreases n - i,
    {
        let ghost rest = s@.skip(i as int);
        assert(rest.skip(1) == s@.skip(i + 1));
        assert(s@.take(i + 1) == s@.take(i as int).push(s@[i as int]));
        assert(s@.take(i as int) + (seq![rest[0]] + before_line_feed(rest.skip(1))) == s@.take(
            i + 1,
        ) + before_line_feed(s@.skip(i + 1)));
        i += 1;
    }
    assert(before_line_feed(s@.skip(i as int)) == Seq::<u8>::empty());
    assert(s@.take(i as int) + Seq::<u8>::empty() == s@.take(i as int));
    i
}

/// Whether `raw` holds a display name descriptor at `i`.
fn is_name_descriptor(raw: &[u8], i: usize) -> (r: bool)
    requires
        i <= 108,
    ensures
        r == name_descriptor_at(raw@, i as int),
{
    i + 17 < raw.len() && raw[i] == 0 && raw[i + 1] == 0 && raw[i + 2] == 0 && raw[i + 3] == 0xfc
}

/// Finds the descriptor that holds the display name.
fn find_name_descriptor(raw: &[u8]) -> (r: Option<usize>)
    ensures
        match r {
            Some(i) => name_descriptor(raw@) == Some(i as int) && name_descriptor_at(raw@, i as int),
            None => name_descriptor(raw@) is None,
        },
{
    let mut i: usize = 54;
    while i < 126
        invariant
            i == 54 || i == 72 || i == 90 || i == 108 || i == 126,
            54 < i ==> !name_descriptor_at(raw@, 54),
            72 < i ==> !name_descriptor_at(raw@, 72),
            90 < i ==> !name_descriptor_at(raw@, 90),
            108 < i ==> !name_descriptor_at(raw@, 108),
        decreases 126 - i,
    {
        if is_name_descriptor(raw, i) {
            return Some(i);
        }
        i += 18;
    }
    None
}

/// The display name as the EDID spells it; empty where it holds none.
pub fn descriptor_text(raw: &[u8]) -> (r: String)
    ensures
        name_descriptor(raw@) is Some ==> r@ == utf8_lossy(name_bytes(raw@)),
        name_descriptor(raw@) is None ==> r@ == Seq::<char>::empty(),
        valid_utf8(name_bytes(raw@)) ==> r@ == decode_utf8(name_bytes(raw@)),
{
    match find_name_descriptor(raw) {
        Some(i) => {
            let field: &[u8] = slice_subrange(raw, i + 5, i + 18);
            let n: usize = line_length(field);
            assert(field@.subrange(0, n as int) == field@.take(n as int));
            from_utf8_lossy(slice_subrange(field, 0, n))
        },
        None => String::new(),
    }
}

/// The name that stands for a display without one: what follows the first
/// dash of its connector, with spaces for dashes.
pub open spec fn connector_name(dir: Seq<char>) -> Seq<char> {
    match first_index(dir, '-') {
        Some(p) => replaced(dir.skip(p + 1), '-', ' '),
        None => "Display"@,
    }
}

/// The name of a display whose EDID spells `text`.
pub open spec fn shown_name(text: Seq<char>, dir: Seq<char>) -> Seq<char> {
    if trimmed(text).len() > 0 {
        trimmed(text)
    } else {
        connector_name(dir)
    }
}

/// The name of a display: the trimmed text of its EDID, or one made from its
/// connector where that is empty.
pub fn display_name(text: &str, connector_dir: &str) -> (r: String)
    ensures
        r@ == shown_name(text@, connector_dir@),
{
    let name: &str = trim(text);
    if name.unicode_len() > 0 {
        return name.to_owned();
    }
    match find_char(connector_dir, '-') {
        Some(p) => {
            proof {
                lemma_first_index(connector_dir@, '-');
                reveal_strlit(" ");
            }
            let n: usize = connector_dir.unicode_len();
            let rest: &str = connector_dir.substring_char(p + 1, n);
            assert(rest@ == connector_dir@.skip(p + 1));
            replace_char(rest, '-', " ")
        },
        None => "Display".to_owned(),
    }
}

/// The connector is a DisplayPort connector, built-in panels included.
pub open spec fn display_port(dir: Seq<char>) -> bool {
    has_text(dir, "-DP-"@) || has_text(dir, "-eDP-"@)
}

/// Whether the connector is a DisplayPort connector.
pub fn is_display_port(dir: &str) -> (r: bool)
    ensures
        r == display_port(dir@),
{
    contains(dir, "-DP-") || contains(dir, "-eDP-")
}

/// The DisplayPort version that a revision byte stands for.
pub open spec fn dp_revision(v: u8) -> Seq<char> {
    if v == 0x10 {
        "DP 1.0"@
    } else if v == 0x11 {
        "DP 1.1"@
    } else if v == 0x12 {
        "DP 1.2"@
    } else if v == 0x13 {
        "DP 1.3"@
    } else if v == 0x14 {
        "DP 1.4"@
    } else if v >= 0x20 {
        "DP 2.x (UHBR)"@
    } else {
        "DP (DPCD "@ + hex_byte(v) + ")"@
    }
}

/// Names the DisplayPort version of a revision byte.
pub fn dp_revision_text(v: u8) -> (r: String)
    ensures
        r@ == dp_revision(v),
{
    match v {
        0x10 => "DP 1.0".to_owned(),
        0x11 => "DP 1.1".to_owned(),
        0x12 => "DP 1.2".to_owned(),
        0x13 => "DP 1.3".to_owned(),
        0x14 => "DP 1.4".to_owned(),
        _ => {
            if v >= 0x20 {
                "DP 2.x (UHBR)".to_owned()
            } else {
                let mut r: String = "DP (DPCD ".to_owned();
                r.append(hex_byte_text(v).as_str());
                r.append(")");
                r
            }
        },
    }
}

/// The DisplayPort version of a connector: known where it is a DisplayPort
/// connector with configuration data.
pub open spec fn dp_version(dir: Seq<char>, dpcd: Option<Seq<u8>>) -> Option<Seq<char>> {
    match dpcd {
        Some(d) => if display_port(dir) && d.len() > 0 {
            Some(dp_revision(d[0]))
        } else {
            None
        },
        None => None,
    }
}

/// A text that mentions OLED, in any mix of capitals.
pub open spec fn mentions_oled(s: Seq<char>) -> bool {
    has_text(ascii_lowercase(s), "oled"@)
}

/// The description of a display named `name` with the features `f`.
pub open spec fn described(
    name: Seq<char>,
    f: Features,
    probe: ConnectorProbeView,
) -> DisplayInfoView {
    DisplayInfoView {
        name,
        connector_dir: probe.connector_dir,
        hdr10: f.hdr10,
        hlg: f.hlg,
        hdr10plus: f.hdr10plus,
        dolby: f.dolby,
        bt2020: f.bt2020,
        dci_p3: f.dci_p3,
        dsc: f.dsc || probe.dsc_enable,
        cec: probe.cec,
        max_lum_nits: f.max_lum_nits,
        hdmi_ver: match f.hdmi {
            Some(v) => Some(v.name()),
            None => None,
        },
        dp_ver: dp_version(probe.connector_dir, probe.dpcd),
        is_oled: mentions_oled(name) || match probe.panel_type {
            Some(t) => mentions_oled(t),
            None => false,
        },
    }
}

/// Describes a display whose EDID is `raw` and spells the name `text`.
pub fn describe_display(text: &str, raw: &[u8], probe: &ConnectorProbe) -> (r: DisplayInfo)
    ensures
        r@ == described(
            shown_name(text@, probe@.connector_dir),
            features(data_blocks(raw@)),
            probe@,
        ),
{
    let dir: &str = probe.connector_dir.as_str();
    let name: String = display_name(text, dir);
    let found: Features = read_features(raw);
    let hdmi_ver: Option<String> = match found.hdmi {
        Some(v) => Some(v.label().to_owned()),
        None => None,
    };
    let dp_ver: Option<String> = match &probe.dpcd {
        Some(d) => if is_display_port(dir) && d.len() > 0 {
            Some(dp_revision_text(d[0]))
        } else {
            None
        },
        None => None,
    };
    let is_oled: bool = contains_lowercased(name.as_str(), "oled") || match &probe.panel_type {
        Some(t) => contains_lowercased(t.as_str(), "oled"),
        None => false,
    };
    DisplayInfo {
        name,
        connector_dir: dir.to_owned(),
        hdr10: found.hdr10,
        hlg: found.hlg,
        hdr10plus: found.hdr10plus,
        dolby: found.dolby,
        bt2020: found.bt2020,
        dci_p3: found.dci_p3,
        dsc: found.dsc || probe.dsc_enable,
        cec: probe.cec,
        max_lum_nits: found.max_lum_nits,
        hdmi_ver,
        dp_ver,
        is_oled,
    }
}

/// The text that an EDID spells as its display's name.
pub open spec fn edid_text(raw: Seq<u8>) -> Seq<char> {
    match name_descriptor(raw) {
        Some(_) => utf8_lossy(name_bytes(raw)),
        None => Seq::empty(),
    }
}

/// Describes the display behind a connector from its EDID.
pub fn parse_edid(raw: &[u8], probe: &ConnectorProbe) -> (r: DisplayInfo)
    ensures
        r@ == described(
            shown_name(edid_text(raw@), probe@.connector_dir),
            features(data_blocks(raw@)),
            probe@,
        ),
        valid_utf8(name_bytes(raw@)) ==> r@.name == shown_name(
            decode_utf8(name_bytes(raw@)),
            probe@.connector_dir,
        ),
{
    let text: String = descriptor_text(raw);
    describe_display(text.as_str(), raw, probe)
}

/// An EDID without a whole extension block declares no feature.
pub proof fn law_base_block_alone(raw: Seq<u8>)
    requires
        raw.len() < 256,
    ensures
        features(data_blocks(raw)) == (Features {
            hdr10: false,
            hlg: false,
            hdr10plus: false,
            dolby: false,
            bt2020: false,
            dci_p3: false,
            dsc: false,
            max_lum_nits: 0,
            hdmi: None,
        }),
{
    assert(0u8 & 0x04 == 0) by (bit_vector);
    assert(0u8 & 0x08 == 0) by (bit_vector);
    assert(0u8 & 0x80 == 0) by (bit_vector);
    assert(0u8 & 0x02 == 0) by (bit_vector);
    assert(data_blocks(raw) == Seq::<DataBlock>::empty());
}

/// A name in ASCII is valid text, and its characters are its bytes.
pub proof fn law_ascii_name(raw: Seq<u8>)
    requires
        forall|i: int| 0 <= i < name_bytes(raw).len() ==> #[trigger] name_bytes(raw)[i] < 0x80,
    ensures
        valid_utf8(name_bytes(raw)),
        decode_utf8(name_bytes(raw)) == Seq::new(
            name_bytes(raw).len(),
            |i: int| name_bytes(raw)[i] as char,
        ),
{
    let bytes = name_bytes(raw);
    let chars = Seq::new(bytes.len(), |i: int| bytes[i] as char);
    assert(is_ascii_chars(chars));
    is_ascii_chars_encode_utf8(chars);
    encode_utf8_valid_utf8(chars);
    encode_utf8_decode_utf8(chars);
    assert forall|i: int| 0 <= i < bytes.len() implies #[trigger] encode_utf8(chars)[i]
        == bytes[i] by {
        assert(chars[i] as u8 == encode_utf8(chars)[i]);
    }
    assert(encode_utf8(chars) == bytes);
}

/// A display name holds at most thirteen bytes, and no line feed.
pub proof fn law_name_bytes(raw: Seq<u8>)
    ensures
        name_bytes(raw).len() <= 13,
        !name_bytes(raw).contains(0x0a),
{
    if let Some(i) = name_descriptor(raw) {
        lemma_before_line_feed(raw.subrange(i + 5, i + 18));
    }
}

/// What stands before a line feed holds none, and is no longer than the whole.
proof fn lemma_before_line_feed(s: Seq<u8>)
    ensures
        before_line_feed(s).len() <= s.len(),
        !before_line_feed(s).contains(0x0a),
    decreases s.len(),
{
    if s.len() > 0 && s[0] != 0x0a {
        let rest = before_line_feed(s.skip(1));
        lemma_before_line_feed(s.skip(1));
        assert forall|j: int| 0 <= j < before_line_feed(s).len() implies before_line_feed(s)[j]
            != 0x0a by {
            if j > 0 {
                assert(before_line_feed(s)[j] == rest[j - 1]);
            }
        }
    }
}

/// Every display has a name, unless its connector's directory ends at the
/// first dash.
pub proof fn law_display_is_named(text: Seq<char>, dir: Seq<char>)
    requires
        match first_index(dir, '-') {
            Some(p) => p + 1 < dir.len(),
            None => true,
        },
    ensures
        shown_name(text, dir).len() > 0,
{
    reveal_strlit("Display");
    lemma_first_index(dir, '-');
}

/// `raw` holds four bytes at `at`, and the whole descriptor that they start.
pub open spec fn starts_descriptor(raw: Seq<u8>, at: int, bytes: Seq<u8>) -> bool {
    at + 18 <= raw.len() && raw.subrange(at, at + 4) == bytes
}

/// The descriptor in one of the four places, counted from none, starts as a
/// display name does.
pub open spec fn names_in(raw: Seq<u8>, place: int) -> bool {
    starts_descriptor(raw, 54 + 18 * place, seq![0u8, 0, 0, 0xfc])
}

/// Where a descriptor for the name stands, one is found, and it is the first of
/// the four. Where none stands, none is found.
pub proof fn law_first_name_descriptor(raw: Seq<u8>, place: int)
    requires
        0 <= place < 4,
    ensures
        name_descriptor(raw) == Some(54 + 18 * place) <==> names_in(raw, place) && forall|k: int|
            0 <= k < place ==> !#[trigger] names_in(raw, k),
        name_descriptor(raw) is None ==> !names_in(raw, place),
        name_descriptor(raw) is None ==> name_bytes(raw) == Seq::<u8>::empty(),
{
    lemma_descriptor(raw, 54);
    lemma_descriptor(raw, 72);
    lemma_descriptor(raw, 90);
    lemma_descriptor(raw, 108);
    assert(names_in(raw, 0) == name_descriptor_at(raw, 54));
    assert(names_in(raw, 1) == name_descriptor_at(raw, 72));
    assert(names_in(raw, 2) == name_descriptor_at(raw, 90));
    assert(names_in(raw, 3) == name_descriptor_at(raw, 108));
}

/// A name descriptor is told by its first four bytes.
proof fn lemma_descriptor(raw: Seq<u8>, at: int)
    requires
        0 <= at,
    ensures
        starts_descriptor(raw, at, seq![0u8, 0, 0, 0xfc]) == name_descriptor_at(raw, at),
{
    let b = seq![0u8, 0, 0, 0xfc];
    if at + 18 <= raw.len() {
        let part = raw.subrange(at, at + 4);
        assert(part[0] == raw[at] && part[1] == raw[at + 1] && part[2] == raw[at + 2] && part[3]
            == raw[at + 3]);
        if part == b {
            assert(b[0] == raw[at] && b[1] == raw[at + 1] && b[2] == raw[at + 2] && b[3] == raw[at
                + 3]);
        }
        if name_descriptor_at(raw, at) {
            assert(part == b);
        }
    }
}

/// The bytes of a name are those from the sixth of its descriptor up to the
/// first line feed, thirteen where there is none.
pub proof fn law_name_ends_at_line_feed(raw: Seq<u8>, at: int, name: Seq<u8>)
    requires
        name_descriptor(raw) == Some(at),
        name.len() <= 13,
        !name.contains(0x0a),
        raw.subrange(at + 5, at + 5 + name.len()) == name,
        name.len() == 13 || raw[at + 5 + name.len()] == 0x0a,
    ensures
        name_bytes(raw) == name,
{
    let field = raw.subrange(at + 5, at + 18);
    assert(field.take(name.len() as int) == name);
    let rest = field.skip(name.len() as int);
    assert(field == name + rest);
    assert(rest.len() == 0 || rest[0] == 0x0a) by {
        if name.len() < 13 {
            assert(rest[0] == field[name.len() as int]);
        }
    }
    lemma_up_to_line_feed(name, rest);
}

/// What stands before the first line feed.
proof fn lemma_up_to_line_feed(name: Seq<u8>, rest: Seq<u8>)
    requires
        !name.contains(0x0a),
        rest.len() == 0 || rest[0] == 0x0a,
    ensures
        before_line_feed(name + rest) == name,
    decreases name.len(),
{
    if name.len() == 0 {
        assert(name + rest == rest);
    } else {
        let less = name.skip(1);
        assert(name[0] != 0x0a) by {
            assert(name.contains(name[0]));
        }
        assert((name + rest).skip(1) == less + rest);
        assert forall|i: int| 0 <= i < less.len() implies less[i] != 0x0a by {
            assert(less[i] == name[i + 1]);
            assert(name.contains(name[i + 1]));
        }
        lemma_up_to_line_feed(less, rest);
        assert(seq![name[0]] + less == name);
    }
}

/// A display is called what its EDID spells, without the white space around
/// it. Where that is nothing it is called after its connector: what follows
/// the first dash, with a space for each dash; and "Display" without a dash.
pub proof fn law_display_name(
    pre: Seq<char>,
    name: Seq<char>,
    post: Seq<char>,
    card: Seq<char>,
    connector: Seq<char>,
)
    requires
        forall|i: int| 0 <= i < pre.len() ==> white_space(#[trigger] pre[i]),
        forall|i: int| 0 <= i < post.len() ==> white_space(#[trigger] post[i]),
        name.len() == 0 || (!white_space(name[0]) && !white_space(name[name.len() - 1])),
        !card.contains('-'),
    ensures
        ({
            let text = pre + name + post;
            let named = shown_name(text, card.push('-') + connector);
            &&& name.len() > 0 ==> named == name && shown_name(text, card) == name
            &&& name.len() == 0 ==> named.len() == connector.len() && (forall|i: int|
                0 <= i < connector.len() ==> #[trigger] named[i] == (if connector[i] == '-' {
                    ' '
                } else {
                    connector[i]
                }))
            &&& name.len() == 0 ==> shown_name(text, card) == "Display"@
        }),
{
    law_trim_around(pre, name, post);
    let dir = card.push('-') + connector;
    lemma_first_index(dir, '-');
    lemma_first_index(card, '-');
    assert(dir[card.len() as int] == '-');
    let p = first_index(dir, '-').unwrap();
    if p < card.len() {
        assert(card[p] == dir[p]);
    }
    assert(dir.skip(p + 1) == connector);
}

/// The description of a display holds each thing that was found in its place.
pub proof fn law_description(name: Seq<char>, f: Features, probe: ConnectorProbeView)
    ensures
        ({
            let d = described(name, f, probe);
            &&& d.name == name
            &&& d.connector_dir == probe.connector_dir
            &&& d.hdr10 == f.hdr10
            &&& d.hlg == f.hlg
            &&& d.hdr10plus == f.hdr10plus
            &&& d.dolby == f.dolby
            &&& d.bt2020 == f.bt2020
            &&& d.dci_p3 == f.dci_p3
            &&& d.cec == probe.cec
            &&& d.max_lum_nits == f.max_lum_nits
            &&& d.dsc <==> f.dsc || probe.dsc_enable
            &&& f.hdmi is None ==> d.hdmi_ver is None
            &&& f.hdmi == Some(HdmiVersion::V14) ==> d.hdmi_ver == Some("HDMI 1.4"@)
            &&& f.hdmi == Some(HdmiVersion::V20) ==> d.hdmi_ver == Some("HDMI 2.0"@)
            &&& f.hdmi == Some(HdmiVersion::V21) ==> d.hdmi_ver == Some("HDMI 2.1"@)
        }),
{
}

/// The letters of "oled" stand in `s` at `i`, each small or capital.
pub open spec fn oled_at(s: Seq<char>, i: int) -> bool {
    &&& 0 <= i
    &&& i + 4 <= s.len()
    &&& s[i] == 'o' || s[i] == 'O'
    &&& s[i + 1] == 'l' || s[i + 1] == 'L'
    &&& s[i + 2] == 'e' || s[i + 2] == 'E'
    &&& s[i + 3] == 'd' || s[i + 3] == 'D'
}

/// A text mentions OLED where its four letters stand somewhere, in any mix of
/// capitals.
pub proof fn law_mentions_oled(s: Seq<char>)
    ensures
        mentions_oled(s) <==> exists|i: int| oled_at(s, i),
{
    reveal_strlit("oled");
    let word = "oled"@;
    let low = ascii_lowercase(s);
    law_lowercase(s);
    if mentions_oled(s) {
        let at = law_found_stands(low, word);
        assert(low[at + 0] == word[0] && low[at + 1] == word[1] && low[at + 2] == word[2] && low[at
            + 3] == word[3]);
        assert(oled_at(s, at));
    }
    if exists|i: int| oled_at(s, i) {
        let i = choose|i: int| oled_at(s, i);
        let a = low.take(i);
        let b = low.skip(i + 4);
        assert(low[i] == 'o' && low[i + 1] == 'l' && low[i + 2] == 'e' && low[i + 3] == 'd');
        assert(low == a + word + b);
        law_found(a, word, b);
    }
}

/// A display is an OLED display where its name or its panel type says so.
pub proof fn law_is_oled(name: Seq<char>, f: Features, probe: ConnectorProbeView)
    ensures
        described(name, f, probe).is_oled <==> mentions_oled(name) || (probe.panel_type is Some
            && mentions_oled(probe.panel_type->0)),
{
}

/// The DisplayPort version of a display is known where its directory names a
/// DisplayPort connector and there is configuration data; the first byte of
/// the data alone decides on it.
pub proof fn law_dp_version(dir: Seq<char>, data: Seq<u8>)
    ensures
        dp_version(dir, None) is None,
        dp_version(dir, Some(Seq::empty())) is None,
        data.len() > 0 ==> (dp_version(dir, Some(data)) is Some <==> has_text(dir, "-DP-"@)
            || has_text(dir, "-eDP-"@)),
        data.len() > 0 ==> dp_version(dir, Some(data)) == dp_version(dir, Some(seq![data[0]])),
{
}

/// How a revision byte is named: the first generation by its last digit, the
/// second as one, and any other byte by its two hexadecimal digits.
pub proof fn law_dp_revision(v: u8)
    ensures
        0x10 <= v <= 0x14 ==> dp_revision(v) == "DP 1."@ + decimal((v - 0x10) as nat),
        v >= 0x20 ==> dp_revision(v) == "DP 2.x (UHBR)"@,
        v < 0x10 || 0x15 <= v < 0x20 ==> dp_revision(v) == "DP (DPCD "@ + hex_byte(v) + ")"@,
{
    reveal_strlit("DP 1.");
    reveal_strlit("DP 1.0");
    reveal_strlit("DP 1.1");
    reveal_strlit("DP 1.2");
    reveal_strlit("DP 1.3");
    reveal_strlit("DP 1.4");
    if 0x10 <= v <= 0x14 {
        assert(dp_revision(v) == "DP 1."@ + decimal((v - 0x10) as nat));
    }
}

/// The version of a display holds the name of its revision.
pub proof fn law_dp_version_named(name: Seq<char>, f: Features, probe: ConnectorProbeView)
    ensures
        match described(name, f, probe).dp_ver {
            Some(v) => probe.dpcd is Some && probe.dpcd->0.len() > 0 && v == dp_revision(
                probe.dpcd->0[0],
            ),
            None => probe.dpcd is None || probe.dpcd->0.len() == 0 || !(has_text(
                probe.connector_dir,
                "-DP-"@,
            ) || has_text(probe.connector_dir, "-eDP-"@)),
        },
{
}

/// The text of a name is what its bytes decode to, and nothing where the EDID
/// holds none; nothing else of the EDID counts.
pub proof fn law_edid_text(a: Seq<u8>, b: Seq<u8>)
    ensures
        name_descriptor(a) is None ==> edid_text(a) == Seq::<char>::empty(),
        name_descriptor(a) is Some ==> edid_text(a) == utf8_lossy(name_bytes(a)),
        name_descriptor(a) is Some && name_descriptor(b) is Some && name_bytes(a) == name_bytes(b)
            ==> edid_text(a) == edid_text(b),
{
}

/// A directory names a DisplayPort connector where the connector's kind stands
/// between dashes in it.
pub proof fn law_display_port(a: Seq<char>, b: Seq<char>, dir: Seq<char>)
    ensures
        display_port(a + "-DP-"@ + b),
        display_port(a + "-eDP-"@ + b),
        display_port(dir) ==> has_text(dir, "-DP-"@) || has_text(dir, "-eDP-"@),
{
    law_found(a, "-DP-"@, b);
    law_found(a, "-eDP-"@, b);
}

/// The contents of a description and of a probe are their fields, each in its
/// place.
pub proof fn law_display_contents(d: DisplayInfo, p: ConnectorProbe)
    ensures
        d@.name == d.name@,
        d@.connector_dir == d.connector_dir@,
        d@.hdr10 == d.hdr10,
        d@.hlg == d.hlg,
        d@.hdr10plus == d.hdr10plus,
        d@.dolby == d.dolby,
        d@.bt2020 == d.bt2020,
        d@.dci_p3 == d.dci_p3,
        d@.dsc == d.dsc,
        d@.cec == d.cec,
        d@.max_lum_nits == d.max_lum_nits,
        d.hdmi_ver is Some ==> d@.hdmi_ver == Some(d.hdmi_ver->0@),
        d.hdmi_ver is None ==> d@.hdmi_ver is None,
        d.dp_ver is Some ==> d@.dp_ver == Some(d.dp_ver->0@),
        d.dp_ver is None ==> d@.dp_ver is None,
        d@.is_oled == d.is_oled,
        p@.connector_dir == p.connector_dir@,
        p@.dsc_enable == p.dsc_enable,
        p.dpcd is Some ==> p@.dpcd == Some(p.dpcd->0@),
        p.dpcd is None ==> p@.dpcd is None,
        p@.cec == p.cec,
        p.panel_type is Some ==> p@.panel_type == Some(p.panel_type->0@),
        p.panel_type is None ==> p@.panel_type is None,
{
}

} // verus!
