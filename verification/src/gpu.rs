//! Which vendor the graphics hardware is from.

use vstd::prelude::*;

use crate::text::{find_char, law_trim_around, same_text, starts_with, trim, trimmed, white_space};

verus! {

/// An entry of the graphics device directory.
pub struct CardEntry {
    pub name: String,
    /// The text of the card's vendor file, where it can be read.
    pub vendor: Option<String>,
}

/// What the system shows of its graphics hardware.
pub struct GpuProbe {
    /// Whether the NVIDIA driver's device exists.
    pub nvidia_device: bool,
    /// The entries of the graphics device directory, in the order of the listing.
    pub cards: Vec<CardEntry>,
}

/// A name of a card itself, not of one of its connectors.
pub open spec fn card_name(name: Seq<char>) -> bool {
    "card"@.is_prefix_of(name) && !name.contains('-')
}

/// Whether `name` names a card, not one of its connectors.
pub fn is_card(name: &str) -> (r: bool)
    ensures
        r == card_name(name@),
{
    starts_with(name, "card") && find_char(name, '-').is_none()
}

/// The vendor that a vendor file names, where it is one of the known ones.
pub open spec fn vendor_of(text: Seq<char>) -> Option<Seq<char>> {
    if trimmed(text) == "0x1002"@ {
        Some("amd"@)
    } else if trimmed(text) == "0x8086"@ {
        Some("intel"@)
    } else {
        None
    }
}

/// The known vendor of a card.
pub open spec fn entry_vendor(e: CardEntry) -> Option<Seq<char>> {
    match e.vendor {
        Some(t) => if card_name(e.name@) {
            vendor_of(t@)
        } else {
            None
        },
        None => None,
    }
}

/// The vendor of the first card with a known one.
pub open spec fn first_vendor(cards: Seq<CardEntry>) -> Seq<char>
    decreases cards.len(),
{
    if cards.len() == 0 {
        "unknown"@
    } else {
        match entry_vendor(cards[0]) {
            Some(v) => v,
            None => first_vendor(cards.skip(1)),
        }
    }
}

/// The vendor of the machine's graphics hardware: an NVIDIA device decides,
/// and otherwise the first known card.
pub open spec fn vendor_name(probe: GpuProbe) -> Seq<char> {
    if probe.nvidia_device {
        "nvidia"@
    } else {
        first_vendor(probe.cards@)
    }
}

/// Whether the machine runs the NVIDIA driver.
pub fn is_nvidia(probe: &GpuProbe) -> (r: bool)
    ensures
        r == probe.nvidia_device,
        r == (vendor_name(*probe) == "nvidia"@),
{
    proof {
        law_nvidia_named(*probe);
    }
    probe.nvidia_device
}

/// Names the vendor of the machine's graphics hardware.
pub fn gpu_vendor(probe: &GpuProbe) -> (r: &'static str)
    ensures
        r@ == vendor_name(*probe),
{
    if probe.nvidia_device {
        return "nvidia";
    }
    let n: usize = probe.cards.len();
    let mut i: usize = 0;
    let ghost cards = probe.cards@;
    assert(cards.skip(0) == cards);
    while i < n
        invariant
            i <= n,
            n == cards.len(),
            cards == probe.cards@,
            !probe.nvidia_device,
            first_vendor(cards) == first_vendor(cards.skip(i as int)),
        decreases n - i,
    {
        assert(cards.skip(i as int).skip(1) == cards.skip(i + 1));
        assert(cards.skip(i as int)[0] == cards[i as int]);
        let e: &CardEntry = &probe.cards[i];
        if is_card(e.name.as_str()) {
            if let Some(text) = &e.vendor {
                let v: &str = trim(text.as_str());
                if same_text(v, "0x1002") {
                    return "amd";
                }
                if same_text(v, "0x8086") {
                    return "intel";
                }
            }
        }
        i += 1;
    }
    "unknown"
}

/// The names of the vendors are told apart by their letters.
proof fn lemma_vendor_names()
    ensures
        "nvidia"@ != "amd"@,
        "nvidia"@ != "intel"@,
        "nvidia"@ != "unknown"@,
{
    reveal_strlit("nvidia");
    reveal_strlit("amd");
    reveal_strlit("intel");
    reveal_strlit("unknown");
    assert("nvidia"@.len() == 6);
    assert("amd"@.len() == 3);
    assert("intel"@.len() == 5);
    assert("unknown"@.len() == 7);
}

/// A listing of cards names one of the known vendors, or none of them.
pub proof fn law_first_vendor(cards: Seq<CardEntry>)
    ensures
        first_vendor(cards) == "amd"@ || first_vendor(cards) == "intel"@ || first_vendor(cards)
            == "unknown"@,
    decreases cards.len(),
{
    if cards.len() > 0 {
        law_first_vendor(cards.skip(1));
    }
}

/// The machine's vendor is named NVIDIA exactly where the NVIDIA device exists.
pub proof fn law_nvidia_named(probe: GpuProbe)
    ensures
        vendor_name(probe) == "nvidia"@ <==> probe.nvidia_device,
{
    lemma_vendor_names();
    law_first_vendor(probe.cards@);
}

/// A vendor file names AMD or Intel by its number, with any white space around
/// it, and nobody by anything else.
pub proof fn law_vendor_file(pre: Seq<char>, number: Seq<char>, post: Seq<char>)
    requires
        forall|i: int| 0 <= i < pre.len() ==> white_space(#[trigger] pre[i]),
        forall|i: int| 0 <= i < post.len() ==> white_space(#[trigger] post[i]),
        number.len() == 0 || (!white_space(number[0]) && !white_space(number[number.len() - 1])),
    ensures
        number == "0x1002"@ ==> vendor_of(pre + number + post) == Some("amd"@),
        number == "0x8086"@ ==> vendor_of(pre + number + post) == Some("intel"@),
        number != "0x1002"@ && number != "0x8086"@ ==> vendor_of(pre + number + post) is None,
{
    law_trim_around(pre, number, post);
    reveal_strlit("0x1002");
    reveal_strlit("0x8086");
    assert("0x1002"@[2] == '1');
    assert("0x8086"@[2] == '8');
}

/// A card whose vendor file holds a known number.
pub open spec fn known_card(e: CardEntry) -> bool {
    &&& "card"@.is_prefix_of(e.name@)
    &&& !e.name@.contains('-')
    &&& e.vendor is Some
    &&& trimmed(e.vendor->0@) == "0x1002"@ || trimmed(e.vendor->0@) == "0x8086"@
}

/// The first known card of a listing names the vendor, whatever comes behind
/// it; without one the vendor is unknown.
pub proof fn law_first_known_card(before: Seq<CardEntry>, e: CardEntry, behind: Seq<CardEntry>)
    requires
        forall|i: int| 0 <= i < before.len() ==> !known_card(#[trigger] before[i]),
    ensures
        known_card(e) ==> first_vendor(before + seq![e] + behind) == (if trimmed(e.vendor->0@)
            == "0x1002"@ {
            "amd"@
        } else {
            "intel"@
        }),
        first_vendor(before) == "unknown"@,
    decreases before.len(),
{
    let all = before + seq![e] + behind;
    if before.len() == 0 {
        assert(all[0] == e);
    } else {
        assert(!known_card(before[0]));
        assert(all[0] == before[0]);
        let less = before.skip(1);
        assert(all.skip(1) == less + seq![e] + behind);
        assert forall|i: int| 0 <= i < less.len() implies !known_card(#[trigger] less[i]) by {
            assert(less[i] == before[i + 1]);
        }
        law_first_known_card(less, e, behind);
    }
}

/// Without the NVIDIA device the listing names the vendor.
pub proof fn law_listing_names_vendor(probe: GpuProbe)
    ensures
        !probe.nvidia_device ==> vendor_name(probe) == first_vendor(probe.cards@),
        probe.nvidia_device ==> vendor_name(probe) == "nvidia"@,
{
}

} // verus!
