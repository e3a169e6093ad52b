//! Which connector drives the display.

use vstd::prelude::*;

use crate::text::{find_char, first_index, lemma_first_index, starts_with, chars_of};

verus! {

/// An entry of the graphics device directory.
pub struct ConnectorEntry {
    pub name: String,
    /// The length of the connector's EDID, where it can be read.
    pub edid_len: Option<usize>,
}

/// The contents of a directory entry.
pub struct ConnectorEntryView {
    pub name: Seq<char>,
    pub edid_len: Option<usize>,
}

impl View for ConnectorEntry {
    type V = ConnectorEntryView;

    open spec fn view(&self) -> ConnectorEntryView {
        ConnectorEntryView { name: self.name@, edid_len: self.edid_len }
    }
}

/// The contents of a directory listing.
pub open spec fn entry_views(entries: Seq<ConnectorEntry>) -> Seq<ConnectorEntryView> {
    Seq::new(entries.len(), |i: int| entries[i]@)
}

/// A connector that stands for no hardware.
pub open spec fn virtual_connector(connector: Seq<char>) -> bool {
    ||| "X11-"@.is_prefix_of(connector)
    ||| "Virtual-"@.is_prefix_of(connector)
    ||| "HEADLESS-"@.is_prefix_of(connector)
    ||| "WL-"@.is_prefix_of(connector)
}

/// A directory name of a real connector: a card's name, a dash, and the name
/// of a connector that is not virtual.
pub open spec fn real_connector(name: Seq<char>) -> bool {
    "card"@.is_prefix_of(name) && match first_index(name, '-') {
        Some(p) => !virtual_connector(name.skip(p + 1)),
        None => false,
    }
}

/// Whether `name` is the directory name of a real connector.
pub fn is_real_connector(name: &str) -> (r: bool)
    ensures
        r == real_connector(name@),
{
    if !starts_with(name, "card") {
        return false;
    }
    match find_char(name, '-') {
        Some(p) => {
            proof {
                lemma_first_index(name@, '-');
            }
            let n: usize = name.unicode_len();
            let connector: &str = name.substring_char(p + 1, n);
            assert(connector@ == name@.skip(p + 1));
            !starts_with(connector, "X11-") && !starts_with(connector, "Virtual-") && !starts_with(
                connector,
                "HEADLESS-",
            ) && !starts_with(connector, "WL-")
        },
        None => false,
    }
}

/// The file that holds a connector's EDID.
pub open spec fn edid_path(name: Seq<char>) -> Seq<char> {
    "/sys/class/drm/"@ + name + "/edid"@
}

/// The file that holds a connector's EDID.
pub fn edid_path_of(name: &str) -> (r: String)
    ensures
        r@ == edid_path(name@),
{
    let mut r: String = "/sys/class/drm/".to_owned();
    r.append(name);
    r.append("/edid");
    r
}

/// A real connector with at least a whole base block of EDID.
pub open spec fn active(e: ConnectorEntryView) -> bool {
    real_connector(e.name) && match e.edid_len {
        Some(n) => n >= 128,
        None => false,
    }
}

/// `a` comes before `b` in the order of their characters, or is `b`.
pub open spec fn text_le(a: Seq<char>, b: Seq<char>) -> bool
    decreases a.len(),
{
    ||| a.len() == 0
    ||| b.len() > 0 && a[0] < b[0]
    ||| b.len() > 0 && a[0] == b[0] && text_le(a.skip(1), b.skip(1))
}

/// The order of texts is total.
pub proof fn lemma_text_le_total(a: Seq<char>, b: Seq<char>)
    ensures
        text_le(a, b) || text_le(b, a),
    decreases a.len(),
{
    if a.len() > 0 && b.len() > 0 && a[0] == b[0] {
        lemma_text_le_total(a.skip(1), b.skip(1));
    }
}

/// Texts that come before each other are the same.
pub proof fn lemma_text_le_antisymmetric(a: Seq<char>, b: Seq<char>)
    requires
        text_le(a, b),
        text_le(b, a),
    ensures
        a == b,
    decreases a.len(),
{
    if a.len() > 0 {
        lemma_text_le_antisymmetric(a.skip(1), b.skip(1));
        assert(a == seq![a[0]] + a.skip(1));
        assert(b == seq![b[0]] + b.skip(1));
    } else {
        assert(a == b);
    }
}

/// The order of texts is transitive.
pub proof fn lemma_text_le_transitive(a: Seq<char>, b: Seq<char>, c: Seq<char>)
    requires
        text_le(a, b),
        text_le(b, c),
    ensures
        text_le(a, c),
    decreases a.len(),
{
    if a.len() > 0 && a[0] == b[0] && b[0] == c[0] {
        lemma_text_le_transitive(a.skip(1), b.skip(1), c.skip(1));
    }
}

/// Compares two texts by their characters.
fn text_le_of(a: &str, b: &str) -> (r: bool)
    ensures
        r == text_le(a@, b@),
{
    let ca: Vec<char> = chars_of(a);
    let cb: Vec<char> = chars_of(b);
    let mut i: usize = 0;
    assert(a@.skip(0) == a@);
    assert(b@.skip(0) == b@);
    while i < ca.len()
        invariant
            i <= ca@.len(),
            i <= cb@.len(),
            ca@ == a@,
            cb@ == b@,
            text_le(a@, b@) == text_le(a@.skip(i as int), b@.skip(i as int)),
        decreases ca@.len() - i,
    {
        assert(a@.skip(i as int).skip(1) == a@.skip(i + 1));
        if i >= cb.len() {
            return false;
        }
        assert(b@.skip(i as int).skip(1) == b@.skip(i + 1));
        if ca[i] < cb[i] {
            return true;
        }
        if ca[i] != cb[i] {
            return false;
        }
        i += 1;
    }
    true
}

/// `r` is the connector that drives the display: among the active ones, the
/// one whose EDID file comes first; none where none is active.
pub open spec fn active_connector(
    entries: Seq<ConnectorEntryView>,
    r: Option<Seq<char>>,
) -> bool {
    match r {
        Some(dir) => {
            &&& exists|i: int|
                #![trigger entries[i]]
                0 <= i < entries.len() && active(entries[i]) && entries[i].name == dir
            &&& forall|j: int|
                #![trigger entries[j]]
                0 <= j < entries.len() && active(entries[j]) ==> text_le(
                    edid_path(dir),
                    edid_path(entries[j].name),
                )
        },
        None => forall|j: int|
            #![trigger entries[j]]
            0 <= j < entries.len() ==> !active(entries[j]),
    }
}

/// Finds the connector that drives the display. The result is the path of its
/// EDID and its directory name.
pub fn find_active_connector(entries: &Vec<ConnectorEntry>) -> (r: Option<(String, String)>)
    ensures
        match r {
            Some((path, dir)) => path@ == edid_path(dir@) && active_connector(
                entry_views(entries@),
                Some(dir@),
            ),
            None => active_connector(entry_views(entries@), None),
        },
{
    let n: usize = entries.len();
    let ghost all = entry_views(entries@);
    let mut best: Option<(String, String)> = None;
    let mut i: usize = 0;
    while i < n
        invariant
            i <= n,
            n == entries@.len(),
            all == entry_views(entries@),
            match best {
                Some((path, dir)) => path@ == edid_path(dir@) && active_connector(
                    all.take(i as int),
                    Some(dir@),
                ),
                None => active_connector(all.take(i as int), None),
            },
        decreases n - i,
    {
        let e: &ConnectorEntry = &entries[i];
        let ghost old_part = all.take(i as int);
        let ghost part = all.take(i + 1);
        assert(part[i as int] == e@);
        assert(forall|j: int| 0 <= j < i ==> #[trigger] part[j] == old_part[j]);
        let long_enough: bool = match e.edid_len {
            Some(len) => len >= 128,
            None => false,
        };
        if long_enough && is_real_connector(e.name.as_str()) {
            let path: String = edid_path_of(e.name.as_str());
            match &best {
                Some((best_path, best_dir)) => {
                    proof {
                        lemma_text_le_total(best_path@, path@);
                        assert forall|j: int|
                            #![trigger part[j]]
                            0 <= j < part.len() && active(part[j]) && text_le(
                                path@,
                                best_path@,
                            ) implies text_le(path@, edid_path(part[j].name)) by {
                            if j < i {
                                assert(part[j] == old_part[j]);
                                lemma_text_le_transitive(
                                    path@,
                                    best_path@,
                                    edid_path(part[j].name),
                                );
                            } else {
                                lemma_text_le_total(path@, path@);
                            }
                        }
                        let w = choose|w: int|
                            #![trigger old_part[w]]
                            0 <= w < old_part.len() && active(old_part[w]) && old_part[w].name
                                == best_dir@;
                        assert(part[w] == old_part[w]);
                    }
                    if !text_le_of(best_path.as_str(), path.as_str()) {
                        best = Some((path, e.name.clone()));
                    }
                },
                None => {
                    proof {
                        lemma_text_le_total(path@, path@);
                    }
                    best = Some((path, e.name.clone()));
                },
            }
        } else {
            proof {
                assert(!active(part[i as int]));
                if best is Some {
                    let best_dir = best.unwrap().1;
                    let w = choose|w: int|
                        #![trigger old_part[w]]
                        0 <= w < old_part.len() && active(old_part[w]) && old_part[w].name
                            == best_dir@;
                    assert(part[w] == old_part[w]);
                }
            }
        }
        i += 1;
    }
    assert(all.take(n as int) == all);
    best
}

/// The order of the listing does not matter: listings with the same entries
/// have the same active connector.
pub proof fn law_listing_order(
    a: Seq<ConnectorEntryView>,
    b: Seq<ConnectorEntryView>,
    x: Option<Seq<char>>,
    y: Option<Seq<char>>,
)
    requires
        a.to_set() == b.to_set(),
        active_connector(a, x),
        active_connector(b, y),
    ensures
        x == y,
{
    assert forall|i: int| #![trigger a[i]] 0 <= i < a.len() implies b.contains(a[i]) by {
        assert(a.to_set().contains(a[i]));
    }
    assert forall|i: int| #![trigger b[i]] 0 <= i < b.len() implies a.contains(b[i]) by {
        assert(b.to_set().contains(b[i]));
    }
    match (x, y) {
        (Some(p), Some(q)) => {
            let i = choose|i: int|
                #![trigger a[i]]
                0 <= i < a.len() && active(a[i]) && a[i].name == p;
            let j = choose|j: int|
                #![trigger b[j]]
                0 <= j < b.len() && active(b[j]) && b[j].name == q;
            assert(b.contains(a[i]));
            assert(a.contains(b[j]));
            lemma_text_le_antisymmetric(edid_path(p), edid_path(q));
            let front = "/sys/class/drm/"@;
            let back = "/edid"@;
            assert(p == edid_path(p).subrange(front.len() as int, edid_path(p).len() - back.len()));
            assert(q == edid_path(q).subrange(front.len() as int, edid_path(q).len() - back.len()));
        },
        (Some(p), None) => {
            let i = choose|i: int|
                #![trigger a[i]]
                0 <= i < a.len() && active(a[i]) && a[i].name == p;
            assert(b.contains(a[i]));
        },
        (None, Some(q)) => {
            let j = choose|j: int|
                #![trigger b[j]]
                0 <= j < b.len() && active(b[j]) && b[j].name == q;
            assert(a.contains(b[j]));
        },
        (None, None) => {},
    }
}

/// The first difference decides the order of two texts, whatever their lengths.
pub proof fn law_first_difference_decides(a: Seq<char>, b: Seq<char>, k: int)
    requires
        0 <= k < a.len(),
        k < b.len(),
        forall|i: int| 0 <= i < k ==> a[i] == b[i],
        a[k] < b[k],
    ensures
        text_le(a, b),
        !text_le(b, a),
    decreases k,
{
    if k > 0 {
        assert(a[0] == b[0]);
        assert forall|i: int| 0 <= i < k - 1 implies a.skip(1)[i] == b.skip(1)[i] by {
            assert(a[i + 1] == b[i + 1]);
        }
        law_first_difference_decides(a.skip(1), b.skip(1), k - 1);
    }
}

/// A text comes before every text that goes on behind it.
pub proof fn law_shorter_first(a: Seq<char>, b: Seq<char>)
    ensures
        text_le(a, a + b),
        b.len() > 0 ==> !text_le(a + b, a),
    decreases a.len(),
{
    if a.len() > 0 {
        assert((a + b).skip(1) == a.skip(1) + b);
        law_shorter_first(a.skip(1), b);
    }
}

/// A name of a connector: what stands before its first dash names a card, and
/// what stands behind it is not one of the virtual connectors. A name without
/// a dash is none.
pub proof fn law_real_connector(card: Seq<char>, connector: Seq<char>)
    requires
        !card.contains('-'),
    ensures
        real_connector(card.push('-') + connector) <==> "card"@.is_prefix_of(card)
            && !"X11-"@.is_prefix_of(connector) && !"Virtual-"@.is_prefix_of(connector)
            && !"HEADLESS-"@.is_prefix_of(connector) && !"WL-"@.is_prefix_of(connector),
        !real_connector(card),
{
    let name = card.push('-') + connector;
    lemma_first_index(name, '-');
    lemma_first_index(card, '-');
    assert(name[card.len() as int] == '-');
    let p = first_index(name, '-').unwrap();
    if p < card.len() {
        assert(card[p] == name[p]);
    }
    assert(name.skip(p + 1) == connector);
    reveal_strlit("card");
    let word = "card"@;
    if word.is_prefix_of(name) {
        assert(word == name.subrange(0, 4));
        assert(name[0] == word[0] && name[1] == word[1] && name[2] == word[2] && name[3]
            == word[3]);
        if card.len() < 4 {
            assert(name[card.len() as int] == word[card.len() as int]);
        }
        assert(word == card.subrange(0, 4));
    }
    if word.is_prefix_of(card) {
        assert(word == card.subrange(0, 4));
        assert(word == name.subrange(0, 4));
    }
}

/// A connector is active where it is real and its EDID holds at least a base
/// block of 128 bytes; its EDID lies in its directory.
pub proof fn law_active(name: Seq<char>, len: usize)
    ensures
        active(ConnectorEntryView { name, edid_len: Some(len) }) <==> real_connector(name) && len
            > 127,
        !active(ConnectorEntryView { name, edid_len: None }),
        edid_path(name) == "/sys/class/drm/"@ + name + "/edid"@,
{
}

/// The connector that is found is an active one, and one is found where there
/// is an active one.
pub proof fn law_found_is_active(
    entries: Seq<ConnectorEntryView>,
    r: Option<Seq<char>>,
    i: int,
) -> (j: int)
    requires
        active_connector(entries, r),
        0 <= i < entries.len(),
        active(entries[i]),
    ensures
        0 <= j < entries.len(),
        active(entries[j]),
        r == Some(entries[j].name),
{
    let dir = r.unwrap();
    choose|j: int|
        #![trigger entries[j]]
        0 <= j < entries.len() && active(entries[j]) && entries[j].name == dir
}

/// Where nothing is found, no connector is active.
pub proof fn law_nothing_found(entries: Seq<ConnectorEntryView>, i: int)
    requires
        active_connector(entries, None),
        0 <= i < entries.len(),
    ensures
        !active(entries[i]),
{
}

/// No active connector stands before the one that is found: where their names
/// first differ, the one that is found has the smaller character.
pub proof fn law_none_before(
    entries: Seq<ConnectorEntryView>,
    dir: Seq<char>,
    i: int,
    k: int,
)
    requires
        active_connector(entries, Some(dir)),
        0 <= i < entries.len(),
        active(entries[i]),
        0 <= k < dir.len(),
        k < entries[i].name.len(),
        forall|j: int| 0 <= j < k ==> dir[j] == entries[i].name[j],
    ensures
        dir[k] <= entries[i].name[k],
{
    let other = entries[i].name;
    if other[k] < dir[k] {
        let front = "/sys/class/drm/"@;
        let a = edid_path(other);
        let b = edid_path(dir);
        let n = front.len() as int;
        assert(a[n + k] == other[k] && b[n + k] == dir[k]);
        assert forall|j: int| 0 <= j < n + k implies a[j] == b[j] by {
            if j >= n {
                assert(a[j] == other[j - n] && b[j] == dir[j - n]);
            }
        }
        law_first_difference_decides(a, b, n + k);
    }
}

/// Where one name goes on behind another, the character it goes on with is
/// held against the slash of the shorter one's path.
pub proof fn law_none_before_longer(
    entries: Seq<ConnectorEntryView>,
    dir: Seq<char>,
    i: int,
    more: Seq<char>,
)
    requires
        active_connector(entries, Some(dir)),
        0 <= i < entries.len(),
        active(entries[i]),
        more.len() > 0,
    ensures
        entries[i].name == dir + more ==> '/' <= more[0],
        dir == entries[i].name + more ==> more[0] <= '/',
{
    reveal_strlit("/edid");
    let front = "/sys/class/drm/"@;
    let n = front.len() as int;
    let other = entries[i].name;
    let a = edid_path(other);
    let b = edid_path(dir);
    if other == dir + more && !('/' <= more[0]) {
        let k = n + dir.len();
        assert(a[k] == other[dir.len() as int] && other[dir.len() as int] == more[0]);
        assert(b[k] == '/');
        assert forall|j: int| 0 <= j < k implies a[j] == b[j] by {
            if j >= n {
                assert(a[j] == other[j - n] && b[j] == dir[j - n]);
            }
        }
        law_first_difference_decides(a, b, k);
    }
    if dir == other + more && !(more[0] <= '/') {
        let k = n + other.len();
        assert(b[k] == dir[other.len() as int] && dir[other.len() as int] == more[0]);
        assert(a[k] == '/');
        assert forall|j: int| 0 <= j < k implies a[j] == b[j] by {
            if j >= n {
                assert(a[j] == other[j - n] && b[j] == dir[j - n]);
            }
        }
        law_first_difference_decides(a, b, k);
    }
}

} // verus!
