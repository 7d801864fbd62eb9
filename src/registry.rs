//! Saved connection profiles: listing, choosing which to forget, and
//! finding the hotspot's own.
use crate::discovery::{opt_view, AccessPoint};
use crate::security::{class_name, classify, classify_security};
use vstd::prelude::*;
use vstd::string::*;

verus! {

/// The settings of a connection profile that the logic reads.
#[derive(Debug, Clone, PartialEq, Eq)]
pub struct ConnectionSettings {
    /// The connection type, `802-11-wireless` for WiFi.
    pub kind: String,
    /// The WiFi mode, `ap` for an access point the device itself runs.
    pub mode: String,
    /// The SSID as text; `None` where its bytes are not valid UTF-8.
    pub ssid: Option<String>,
}

pub struct ConnectionView {
    pub kind: Seq<char>,
    pub mode: Seq<char>,
    pub ssid: Option<Seq<char>>,
}

impl View for ConnectionSettings {
    type V = ConnectionView;

    open spec fn view(&self) -> ConnectionView {
        ConnectionView { kind: self.kind@, mode: self.mode@, ssid: opt_view(self.ssid) }
    }
}

pub open spec fn conns_view(s: Seq<ConnectionSettings>) -> Seq<ConnectionView> {
    s.map_values(|c: ConnectionSettings| c@)
}

pub open spec fn wireless_kind() -> Seq<char> {
    seq!['8', '0', '2', '-', '1', '1', '-', 'w', 'i', 'r', 'e', 'l', 'e', 's', 's']
}

pub open spec fn ap_mode() -> Seq<char> {
    seq!['a', 'p']
}

pub open spec fn is_wifi(c: ConnectionView) -> bool {
    c.kind == wireless_kind()
}

pub open spec fn is_access_point(c: ConnectionView) -> bool {
    is_wifi(c) && c.mode == ap_mode()
}

/// A profile of a network the device joins as a client.
pub open spec fn is_saved(c: ConnectionView) -> bool {
    is_wifi(c) && !is_access_point(c)
}

pub fn is_wifi_connection(c: &ConnectionSettings) -> (r: bool)
    ensures
        r == is_wifi(c@),
{
    let k = String::from_str("802-11-wireless");
    proof {
        reveal_strlit("802-11-wireless");
        assert(k@ =~= wireless_kind());
    }
    c.kind == k
}

pub fn is_access_point_connection(c: &ConnectionSettings) -> (r: bool)
    ensures
        r == is_access_point(c@),
{
    let m = String::from_str("ap");
    proof {
        reveal_strlit("ap");
        assert(m@ =~= ap_mode());
    }
    is_wifi_connection(c) && c.mode == m
}

/// Which profiles a selection takes.
#[derive(Debug, Clone, Copy, PartialEq, Eq, Structural)]
pub enum Selection {
    /// Client profiles of the given SSID.
    SavedWithSsid,
    /// Every WiFi profile, whatever its mode.
    AllWifi,
    /// Access-point profiles of the given SSID.
    HotspotWithSsid,
}

pub open spec fn selects(sel: Selection, ssid: Seq<char>, c: ConnectionView) -> bool {
    match sel {
        Selection::SavedWithSsid => is_saved(c) && c.ssid == Some(ssid),
        Selection::AllWifi => is_wifi(c),
        Selection::HotspotWithSsid => is_access_point(c) && c.ssid == Some(ssid),
    }
}

/// The positions of the profiles that a selection takes, in order.
pub open spec fn selected(s: Seq<ConnectionView>, sel: Selection, ssid: Seq<char>) -> Seq<int>
    decreases s.len(),
{
    if s.len() == 0 {
        Seq::empty()
    } else {
        let prev = selected(s.drop_last(), sel, ssid);
        if selects(sel, ssid, s.last()) {
            prev.push(s.len() - 1)
        } else {
            prev
        }
    }
}

pub open spec fn as_ints(v: Seq<usize>) -> Seq<int> {
    v.map_values(|x: usize| x as int)
}

/// The positions, in `connections`, of the profiles that `sel` takes.
pub fn select_connections(connections: &Vec<ConnectionSettings>, sel: Selection, ssid: &str) -> (r:
    Vec<usize>)
    ensures
        as_ints(r@) == selected(conns_view(connections@), sel, ssid@),
{
    let ghost s = conns_view(connections@);
    let target = ssid.to_owned();
    let mut out: Vec<usize> = Vec::new();
    let mut i: usize = 0;
    while i < connections.len()
        invariant
            i <= connections@.len(),
            s == conns_view(connections@),
            target@ == ssid@,
            as_ints(out@) == selected(s.take(i as int), sel, ssid@),
        decreases connections@.len() - i,
    {
        let c = &connections[i];
        assert(s.take(i + 1).drop_last() =~= s.take(i as int));
        assert(s.take(i + 1).last() == c@);
        let same_ssid = match &c.ssid {
            Some(t) => *t == target,
            None => false,
        };
        let take = match sel {
            Selection::SavedWithSsid => is_wifi_connection(c) && !is_access_point_connection(c)
                && same_ssid,
            Selection::AllWifi => is_wifi_connection(c),
            Selection::HotspotWithSsid => is_access_point_connection(c) && same_ssid,
        };
        if take {
            out.push(i);
        }
        assert(as_ints(out@) =~= selected(s.take(i + 1), sel, ssid@));
        i = i + 1;
    }
    assert(s.take(connections@.len() as int) =~= s);
    out
}

/// Whether `a` comes before `b` in character-code order, a proper prefix
/// first; for text this is the order of its UTF-8 bytes.
pub open spec fn lex_lt(a: Seq<char>, b: Seq<char>) -> bool
    decreases a.len(),
{
    if a.len() == 0 {
        b.len() > 0
    } else if b.len() == 0 {
        false
    } else if a[0] != b[0] {
        (a[0] as int) < (b[0] as int)
    } else {
        lex_lt(a.drop_first(), b.drop_first())
    }
}

/// Two different sequences are ordered one way, and never both ways.
pub proof fn lemma_lex_total(a: Seq<char>, b: Seq<char>)
    ensures
        a != b ==> lex_lt(a, b) || lex_lt(b, a),
        !(lex_lt(a, b) && lex_lt(b, a)),
        !lex_lt(a, a),
    decreases a.len(),
{
    if a.len() > 0 {
        lemma_lex_total(a.drop_first(), a.drop_first());
    }
    if a.len() > 0 && b.len() > 0 {
        lemma_lex_total(a.drop_first(), b.drop_first());
        if a[0] == b[0] && a != b {
            assert(a.drop_first() != b.drop_first()) by {
                if a.drop_first() == b.drop_first() {
                    assert(a =~= seq![a[0]] + a.drop_first());
                    assert(b =~= seq![b[0]] + b.drop_first());
                }
            }
        }
        if (a[0] as int) == (b[0] as int) {
            assert(a[0] == b[0]);
        }
    } else if a.len() == 0 && b.len() == 0 {
        assert(a =~= b);
    }
}

/// Whether `a` comes before `b`, as [`lex_lt`] orders them.
pub fn text_less(a: &str, b: &str) -> (r: bool)
    ensures
        r == lex_lt(a@, b@),
{
    let na = a.unicode_len();
    let nb = b.unicode_len();
    let mut i: usize = 0;
    assert(a@.skip(0) =~= a@ && b@.skip(0) =~= b@);
    while i < na && i < nb
        invariant
            na == a@.len(),
            nb == b@.len(),
            i <= na,
            i <= nb,
            lex_lt(a@, b@) == lex_lt(a@.skip(i as int), b@.skip(i as int)),
        decreases na - i,
    {
        let ca = a.get_char(i);
        let cb = b.get_char(i);
        let ghost sa = a@.skip(i as int);
        let ghost sb = b@.skip(i as int);
        assert(sa[0] == ca && sb[0] == cb);
        if ca != cb {
            return (ca as u32) < (cb as u32);
        }
        assert(sa.drop_first() =~= a@.skip(i + 1));
        assert(sb.drop_first() =~= b@.skip(i + 1));
        i = i + 1;
    }
    proof {
        if i == na {
            assert(a@.skip(i as int).len() == 0);
        } else {
            assert(b@.skip(i as int).len() == 0);
        }
    }
    i == na && i < nb
}

/// A network the device has a client profile for.
#[derive(Debug, Clone, PartialEq, Eq)]
pub struct SavedNetwork {
    pub ssid: String,
    pub security: String,
}

/// A non-empty text SSID of a client profile.
pub open spec fn saved_ssid(c: ConnectionView) -> bool {
    is_saved(c) && c.ssid is Some && c.ssid->Some_0.len() > 0
}

/// Saved networks are listed as `wpa`: profiles do not record more.
pub open spec fn saved_security() -> Seq<char> {
    seq!['w', 'p', 'a']
}

/// Some client profile has the SSID `t`.
pub open spec fn from_saved(s: Seq<ConnectionView>, t: Seq<char>) -> bool {
    exists|i: int| 0 <= i < s.len() && saved_ssid(#[trigger] s[i]) && s[i].ssid == Some(t)
}

/// The listing holds the SSID `t`.
pub open spec fn listed(r: Seq<SavedNetwork>, t: Seq<char>) -> bool {
    exists|k: int| 0 <= k < r.len() && (#[trigger] r[k]).ssid@ == t
}

/// The listing of saved networks: each SSID of a client profile once, in
/// [`lex_lt`] order.
pub open spec fn is_saved_listing(s: Seq<ConnectionView>, r: Seq<SavedNetwork>) -> bool {
    &&& forall|k: int| 0 <= k < r.len() ==> #[trigger] r[k].security@ == saved_security()
    &&& forall|k: int, l: int|
        0 <= k < l < r.len() ==> lex_lt(#[trigger] r[k].ssid@, #[trigger] r[l].ssid@)
    &&& forall|k: int| 0 <= k < r.len() ==> from_saved(s, (#[trigger] r[k]).ssid@)
    &&& forall|i: int| 0 <= i < s.len() && saved_ssid(#[trigger] s[i]) ==> listed(r, s[i].ssid->Some_0)
}

/// A saved-network listing holds each SSID once, in order; an SSID that
/// only access-point profiles (or non-WiFi profiles) have is not listed,
/// and every SSID of a client profile is.
pub proof fn lemma_saved_listing(s: Seq<ConnectionView>, r: Seq<SavedNetwork>, t: Seq<char>)
    requires
        is_saved_listing(s, r),
    ensures
        forall|k: int, l: int| 0 <= k < l < r.len() ==> #[trigger] r[k].ssid@ != #[trigger] r[l].ssid@,
        (forall|i: int|
            0 <= i < s.len() && (#[trigger] s[i]).ssid == Some(t) ==> !is_saved(s[i]))
            ==> !listed(r, t),
        from_saved(s, t) ==> listed(r, t),
{
    assert forall|k: int, l: int| 0 <= k < l < r.len() implies #[trigger] r[k].ssid@
        != #[trigger] r[l].ssid@ by {
        lemma_lex_total(r[k].ssid@, r[k].ssid@);
    }
    if forall|i: int| 0 <= i < s.len() && (#[trigger] s[i]).ssid == Some(t) ==> !is_saved(s[i]) {
        if listed(r, t) {
            let k = choose|k: int| 0 <= k < r.len() && (#[trigger] r[k]).ssid@ == t;
            assert(from_saved(s, r[k].ssid@));
            let i = choose|i: int| 0 <= i < s.len() && saved_ssid(#[trigger] s[i]) && s[i].ssid == Some(t);
            assert(is_saved(s[i]));
        }
    }
    if from_saved(s, t) {
        let i = choose|i: int| 0 <= i < s.len() && saved_ssid(#[trigger] s[i]) && s[i].ssid == Some(t);
        assert(listed(r, s[i].ssid->Some_0));
    }
}

/// Lists the client profiles' networks, without access-point profiles,
/// each SSID once, sorted by SSID.
pub fn get_saved_networks(connections: &Vec<ConnectionSettings>) -> (r: Vec<SavedNetwork>)
    ensures
        is_saved_listing(conns_view(connections@), r@),
{
    let ghost s = conns_view(connections@);
    let mut out: Vec<SavedNetwork> = Vec::new();
    let mut i: usize = 0;
    while i < connections.len()
        invariant
            i <= connections@.len(),
            s == conns_view(connections@),
            is_saved_listing(s.take(i as int), out@),
        decreases connections@.len() - i,
    {
        let c = &connections[i];
        let ghost pre = s.take(i as int);
        let ghost post = s.take(i + 1);
        assert(post[i as int] == c@);
        assert forall|j: int| 0 <= j < i implies post[j] == #[trigger] pre[j] by {}
        let client = is_wifi_connection(c) && !is_access_point_connection(c);
        match &c.ssid {
            Some(t) => {
                if client && t.unicode_len() > 0 {
                    insert_sorted(&mut out, t, Ghost(pre), Ghost(post), Ghost(i as int));
                } else {
                    assert(!saved_ssid(c@));
                    proof {
                        keep_listing_proof(out@, pre, post, i as int);
                    }
                }
            },
            None => {
                proof {
                    keep_listing_proof(out@, pre, post, i as int);
                }
            },
        }
        i = i + 1;
    }
    assert(s.take(connections@.len() as int) =~= s);
    out
}

proof fn lemma_from_saved_extends(
    pre: Seq<ConnectionView>,
    post: Seq<ConnectionView>,
    i: int,
    t: Seq<char>,
)
    requires
        extends(pre, post, i),
        from_saved(pre, t),
    ensures
        from_saved(post, t),
{
    let j = choose|j: int| 0 <= j < pre.len() && saved_ssid(#[trigger] pre[j]) && pre[j].ssid == Some(t);
    assert(post[j] == pre[j]);
}

proof fn keep_listing_proof(
    r: Seq<SavedNetwork>,
    pre: Seq<ConnectionView>,
    post: Seq<ConnectionView>,
    i: int,
)
    requires
        extends(pre, post, i),
        !saved_ssid(post[i]),
        is_saved_listing(pre, r),
    ensures
        is_saved_listing(post, r),
{
    assert forall|k: int| 0 <= k < r.len() implies from_saved(post, (#[trigger] r[k]).ssid@) by {
        lemma_from_saved_extends(pre, post, i, r[k].ssid@);
    }
    assert forall|j: int| 0 <= j < post.len() && saved_ssid(#[trigger] post[j]) implies listed(
        r,
        post[j].ssid->Some_0,
    ) by {
        assert(post[j] == pre[j]);
    }
}

/// What the profiles seen before position `i`, and the one at `i`, are.
pub open spec fn extends(pre: Seq<ConnectionView>, post: Seq<ConnectionView>, i: int) -> bool {
    &&& 0 <= i
    &&& pre.len() == i
    &&& post.len() == i + 1
    &&& forall|j: int| 0 <= j < i ==> post[j] == #[trigger] pre[j]
}

proof fn lemma_insert_sorted_order(r0: Seq<SavedNetwork>, entry: SavedNetwork, p: int)
    requires
        0 <= p <= r0.len(),
        forall|k: int, l: int|
            0 <= k < l < r0.len() ==> lex_lt(#[trigger] r0[k].ssid@, #[trigger] r0[l].ssid@),
        forall|k: int| 0 <= k < p ==> lex_lt(#[trigger] r0[k].ssid@, entry.ssid@),
        p < r0.len() ==> lex_lt(entry.ssid@, r0[p].ssid@),
        forall|k: int| 0 <= k < r0.len() ==> #[trigger] r0[k].security@ == saved_security(),
        entry.security@ == saved_security(),
    ensures
        forall|k: int, l: int|
            0 <= k < l < r0.insert(p, entry).len() ==> lex_lt(
                #[trigger] r0.insert(p, entry)[k].ssid@,
                #[trigger] r0.insert(p, entry)[l].ssid@,
            ),
        forall|k: int|
            0 <= k < r0.insert(p, entry).len() ==> #[trigger] r0.insert(p, entry)[k].security@
                == saved_security(),
{
    let r = r0.insert(p, entry);
    assert forall|k: int| 0 <= k < r.len() implies #[trigger] r[k].security@ == saved_security() by {
        if k < p {
            assert(r[k] == r0[k]);
        } else if k > p {
            assert(r[k] == r0[k - 1]);
        }
    }
    assert forall|k: int, l: int| 0 <= k < l < r.len() implies lex_lt(
        #[trigger] r[k].ssid@,
        #[trigger] r[l].ssid@,
    ) by {
        if l < p {
            assert(r[k] == r0[k] && r[l] == r0[l]);
        } else if l == p {
            assert(r[k] == r0[k]);
        } else if k > p {
            assert(r[k] == r0[k - 1] && r[l] == r0[l - 1]);
        } else {
            assert(r[l] == r0[l - 1]);
            if l - 1 > p {
                assert(lex_lt(r0[p].ssid@, r0[l - 1].ssid@));
                lemma_lex_trans(entry.ssid@, r0[p].ssid@, r0[l - 1].ssid@);
            }
            if k < p {
                assert(r[k] == r0[k]);
                lemma_lex_trans(r0[k].ssid@, entry.ssid@, r0[l - 1].ssid@);
            }
        }
    }
}

proof fn lemma_insert_sorted_cover(
    r0: Seq<SavedNetwork>,
    entry: SavedNetwork,
    p: int,
    pre: Seq<ConnectionView>,
    post: Seq<ConnectionView>,
    i: int,
)
    requires
        0 <= p <= r0.len(),
        extends(pre, post, i),
        saved_ssid(post[i]),
        post[i].ssid == Some(entry.ssid@),
        is_saved_listing(pre, r0),
    ensures
        forall|k: int|
            0 <= k < r0.insert(p, entry).len() ==> from_saved(
                post,
                (#[trigger] r0.insert(p, entry)[k]).ssid@,
            ),
        forall|j: int|
            0 <= j < post.len() && saved_ssid(#[trigger] post[j]) ==> listed(
                r0.insert(p, entry),
                post[j].ssid->Some_0,
            ),
{
    let r = r0.insert(p, entry);
    assert forall|k: int| 0 <= k < r.len() implies from_saved(post, (#[trigger] r[k]).ssid@) by {
        if k == p {
            assert(r[k] == entry);
            assert(saved_ssid(post[i]) && post[i].ssid == Some(r[k].ssid@));
        } else {
            let k0 = if k < p {
                k
            } else {
                k - 1
            };
            assert(r[k] == r0[k0]);
            assert(from_saved(pre, r0[k0].ssid@));
            lemma_from_saved_extends(pre, post, i, r0[k0].ssid@);
        }
    }
    assert forall|j: int| 0 <= j < post.len() && saved_ssid(#[trigger] post[j]) implies listed(
        r,
        post[j].ssid->Some_0,
    ) by {
        if j < i {
            assert(post[j] == pre[j]);
            assert(listed(r0, pre[j].ssid->Some_0));
            let k0 = choose|k0: int| 0 <= k0 < r0.len() && (#[trigger] r0[k0]).ssid@ == pre[j].ssid->Some_0;
            if k0 < p {
                assert(r[k0] == r0[k0]);
            } else {
                assert(r[k0 + 1] == r0[k0]);
            }
        } else {
            assert(r[p] == entry);
        }
    }
}

proof fn lemma_listing_has(
    r: Seq<SavedNetwork>,
    p: int,
    pre: Seq<ConnectionView>,
    post: Seq<ConnectionView>,
    i: int,
)
    requires
        0 <= p < r.len(),
        extends(pre, post, i),
        saved_ssid(post[i]),
        post[i].ssid == Some(r[p].ssid@),
        is_saved_listing(pre, r),
    ensures
        is_saved_listing(post, r),
{
    assert forall|k: int| 0 <= k < r.len() implies from_saved(post, (#[trigger] r[k]).ssid@) by {
        lemma_from_saved_extends(pre, post, i, r[k].ssid@);
    }
    assert forall|j: int| 0 <= j < post.len() && saved_ssid(#[trigger] post[j]) implies listed(
        r,
        post[j].ssid->Some_0,
    ) by {
        if j < i {
            assert(post[j] == pre[j]);
        } else {
            assert(r[p].ssid@ == post[j].ssid->Some_0);
        }
    }
}

/// Adds `t` to a sorted listing unless it is there already.
fn insert_sorted(
    out: &mut Vec<SavedNetwork>,
    t: &String,
    Ghost(pre): Ghost<Seq<ConnectionView>>,
    Ghost(post): Ghost<Seq<ConnectionView>>,
    Ghost(i): Ghost<int>,
)
    requires
        extends(pre, post, i),
        saved_ssid(post[i]),
        post[i].ssid == Some(t@),
        is_saved_listing(pre, old(out)@),
    ensures
        is_saved_listing(post, final(out)@),
{
    let mut p: usize = 0;
    while p < out.len() && text_less(out[p].ssid.as_str(), t.as_str())
        invariant
            p <= out@.len(),
            forall|k: int| 0 <= k < p ==> lex_lt(#[trigger] out@[k].ssid@, t@),
        decreases out@.len() - p,
    {
        p = p + 1;
    }
    if p < out.len() && out[p].ssid == *t {
        proof {
            lemma_listing_has(out@, p as int, pre, post, i);
        }
        return;
    }
    let ghost r0 = out@;
    proof {
        if p < r0.len() {
            lemma_lex_total(r0[p as int].ssid@, t@);
        }
    }
    let entry = SavedNetwork { ssid: t.clone(), security: String::from_str("wpa") };
    proof {
        reveal_strlit("wpa");
        assert(entry.security@ =~= saved_security());
    }
    out.insert(p, entry);
    proof {
        lemma_insert_sorted_order(r0, entry, p as int);
        lemma_insert_sorted_cover(r0, entry, p as int, pre, post, i);
    }
}

/// The order is transitive.
pub proof fn lemma_lex_trans(a: Seq<char>, b: Seq<char>, c: Seq<char>)
    requires
        lex_lt(a, b),
        lex_lt(b, c),
    ensures
        lex_lt(a, c),
    decreases a.len(),
{
    if a.len() > 0 && b.len() > 0 && c.len() > 0 {
        if a[0] == b[0] && b[0] == c[0] {
            lemma_lex_trans(a.drop_first(), b.drop_first(), c.drop_first());
        }
    }
}

/// The network the device is connected to, as it is shown to users.
#[derive(Debug, Clone, PartialEq, Eq)]
pub struct ConnectedNetwork {
    pub ssid: String,
    pub security: String,
    pub signal_strength: u8,
    pub interface: String,
    pub ip_address: Option<String>,
}

/// Signal strength above which a visible network is taken for the one the
/// device is connected to.
pub const CONNECTED_STRENGTH: u32 = 50;

/// A visible network that looks like the connected one: a text SSID that is
/// not empty, a strong signal, and a WiFi profile of the same SSID.
pub open spec fn looks_connected(a: AccessPoint, conns: Seq<ConnectionView>) -> bool {
    &&& a.ssid is Some
    &&& a.ssid->Some_0@.len() > 0
    &&& a.strength > CONNECTED_STRENGTH
    &&& exists|j: int| 0 <= j < conns.len() && is_wifi(#[trigger] conns[j]) && conns[j].ssid == Some(a.ssid->Some_0@)
}

fn has_wifi_profile(connections: &Vec<ConnectionSettings>, t: &String) -> (r: bool)
    ensures
        r == exists|j: int|
            0 <= j < connections@.len() && is_wifi(#[trigger] conns_view(connections@)[j])
                && conns_view(connections@)[j].ssid == Some(t@),
{
    let ghost s = conns_view(connections@);
    let mut j: usize = 0;
    while j < connections.len()
        invariant
            j <= connections@.len(),
            s == conns_view(connections@),
            forall|k: int| 0 <= k < j ==> !(is_wifi(#[trigger] s[k]) && s[k].ssid == Some(t@)),
        decreases connections@.len() - j,
    {
        let c = &connections[j];
        assert(s[j as int] == c@);
        let same = match &c.ssid {
            Some(u) => *u == *t,
            None => false,
        };
        if same && is_wifi_connection(c) {
            return true;
        }
        j = j + 1;
    }
    false
}

/// Guesses the connected network from what an activated device sees: the
/// first access point that [`looks_connected`], with its signal capped at 100.
pub fn pick_connected_network(
    access_points: &Vec<AccessPoint>,
    connections: &Vec<ConnectionSettings>,
    interface: &str,
) -> (r: Option<ConnectedNetwork>)
    ensures
        r is None ==> forall|i: int|
            0 <= i < access_points@.len() ==> !looks_connected(
                #[trigger] access_points@[i],
                conns_view(connections@),
            ),
        r is Some ==> exists|i: int|
            0 <= i < access_points@.len() && looks_connected(
                #[trigger] access_points@[i],
                conns_view(connections@),
            ) && (forall|j: int|
                0 <= j < i ==> !looks_connected(#[trigger] access_points@[j], conns_view(connections@)))
                && r->Some_0.ssid@ == access_points@[i].ssid->Some_0@ && r->Some_0.security@
                == class_name(classify(access_points@[i].security)) && r->Some_0.signal_strength
                == (if access_points@[i].strength > 100 {
                100
            } else {
                access_points@[i].strength
            }) && r->Some_0.interface@ == interface@ && r->Some_0.ip_address is None,
{
    let mut i: usize = 0;
    while i < access_points.len()
        invariant
            i <= access_points@.len(),
            forall|j: int|
                0 <= j < i ==> !looks_connected(#[trigger] access_points@[j], conns_view(connections@)),
        decreases access_points@.len() - i,
    {
        let ap = &access_points[i];
        match &ap.ssid {
            Some(t) => {
                if t.unicode_len() > 0 && ap.strength > CONNECTED_STRENGTH && has_wifi_profile(
                    connections,
                    t,
                ) {
                    let signal: u8 = if ap.strength > 100 {
                        100
                    } else {
                        ap.strength as u8
                    };
                    return Some(
                        ConnectedNetwork {
                            ssid: t.clone(),
                            security: classify_security(ap.security).name().to_owned(),
                            signal_strength: signal,
                            interface: interface.to_owned(),
                            ip_address: None,
                        },
                    );
                }
            },
            None => {},
        }
        i = i + 1;
    }
    None
}

} // verus!
