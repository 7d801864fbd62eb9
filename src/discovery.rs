//! Access point discovery: which scan results are offered, and when to
//! scan again.
use crate::security::{
    class_name, classify, classify_security, credentials_for, resolve_credentials, Credentials,
};
use vstd::prelude::*;
use vstd::string::*;

verus! {

/// One result of a WiFi scan.
#[derive(Debug, Clone, PartialEq, Eq)]
pub struct AccessPoint {
    /// The SSID as text; `None` where its bytes are not valid UTF-8.
    pub ssid: Option<String>,
    /// Security capability bits (see [`crate::security`]).
    pub security: u32,
    /// Signal strength, 0 to 100.
    pub strength: u32,
}

pub struct AccessPointView {
    pub ssid: Option<Seq<char>>,
    pub security: u32,
    pub strength: u32,
}

pub open spec fn opt_view(s: Option<String>) -> Option<Seq<char>> {
    match s {
        Some(t) => Some(t@),
        None => None,
    }
}

impl View for AccessPoint {
    type V = AccessPointView;

    open spec fn view(&self) -> AccessPointView {
        AccessPointView { ssid: opt_view(self.ssid), security: self.security, strength: self.strength }
    }
}

pub open spec fn aps_view(s: Seq<AccessPoint>) -> Seq<AccessPointView> {
    s.map_values(|a: AccessPoint| a@)
}

/// The text SSIDs of the entries, in order, repeats included.
pub open spec fn text_ssids(s: Seq<AccessPointView>) -> Seq<Seq<char>>
    decreases s.len(),
{
    if s.len() == 0 {
        Seq::empty()
    } else {
        match s.last().ssid {
            Some(t) => text_ssids(s.drop_last()).push(t),
            None => text_ssids(s.drop_last()),
        }
    }
}

/// An entry is offered if its SSID is text, not empty, and not the SSID
/// that is excluded (an empty `excluded` excludes nothing).
pub open spec fn qualifies(e: AccessPointView, excluded: Seq<char>) -> bool {
    match e.ssid {
        Some(t) => t.len() > 0 && (excluded.len() == 0 || t != excluded),
        None => false,
    }
}

/// The entries offered from one scan: those that qualify and whose SSID no
/// earlier entry had, in scan order.
pub open spec fn offered(s: Seq<AccessPointView>, excluded: Seq<char>) -> Seq<AccessPointView>
    decreases s.len(),
{
    if s.len() == 0 {
        Seq::empty()
    } else {
        let prev = offered(s.drop_last(), excluded);
        let e = s.last();
        if qualifies(e, excluded) && !text_ssids(s.drop_last()).contains(e.ssid->Some_0) {
            prev.push(e)
        } else {
            prev
        }
    }
}

/// Of two scan entries with the same SSID, only the first is offered.
pub proof fn lemma_first_duplicate_wins(a: AccessPointView, b: AccessPointView, excluded: Seq<char>)
    requires
        qualifies(a, excluded),
        b.ssid == a.ssid,
    ensures
        offered(seq![a, b], excluded) == seq![a],
{
    let s = seq![a, b];
    assert(s.drop_last() =~= seq![a]);
    assert(seq![a].drop_last() =~= Seq::<AccessPointView>::empty());
    assert(text_ssids(Seq::<AccessPointView>::empty()) == Seq::<Seq<char>>::empty());
    assert(offered(Seq::<AccessPointView>::empty(), excluded) == Seq::<AccessPointView>::empty());
    assert(text_ssids(seq![a]) =~= seq![a.ssid->Some_0]);
    assert(text_ssids(seq![a]).contains(b.ssid->Some_0)) by {
        assert(text_ssids(seq![a])[0] == b.ssid->Some_0);
    }
    assert(offered(seq![a], excluded) =~= seq![a]);
}

fn contains_text(v: &Vec<String>, t: &String) -> (r: bool)
    ensures
        r == exists|k: int| 0 <= k < v@.len() && #[trigger] v@[k]@ == t@,
{
    let mut i: usize = 0;
    while i < v.len()
        invariant
            i <= v@.len(),
            forall|k: int| 0 <= k < i ==> #[trigger] v@[k]@ != t@,
        decreases v@.len() - i,
    {
        if v[i] == *t {
            return true;
        }
        i = i + 1;
    }
    false
}

/// The access points to offer from one scan, as [`offered`] describes.
pub fn filter_access_points(scan: &Vec<AccessPoint>, excluded: &str) -> (r: Vec<AccessPoint>)
    ensures
        aps_view(r@) == offered(aps_view(scan@), excluded@),
{
    let ghost s = aps_view(scan@);
    let mut seen: Vec<String> = Vec::new();
    let mut out: Vec<AccessPoint> = Vec::new();
    let skip_empty = excluded.unicode_len() == 0;
    let excl = excluded.to_owned();
    let mut i: usize = 0;
    while i < scan.len()
        invariant
            i <= scan@.len(),
            s == aps_view(scan@),
            excl@ == excluded@,
            skip_empty == (excluded@.len() == 0),
            seen@.len() == text_ssids(s.take(i as int)).len(),
            forall|k: int| 0 <= k < seen@.len() ==> #[trigger] seen@[k]@ == text_ssids(
                s.take(i as int),
            )[k],
            aps_view(out@) == offered(s.take(i as int), excluded@),
        decreases scan@.len() - i,
    {
        let e = &scan[i];
        let ghost pre = s.take(i as int);
        assert(s.take(i + 1).drop_last() =~= pre);
        assert(s.take(i + 1).last() == e@);
        match &e.ssid {
            Some(t) => {
                let dup = contains_text(&seen, t);
                proof {
                    let ts = text_ssids(pre);
                    if dup {
                        let k = choose|k: int| 0 <= k < seen@.len() && #[trigger] seen@[k]@ == t@;
                        assert(ts[k] == t@);
                    } else {
                        assert forall|k: int| 0 <= k < ts.len() implies ts[k] != t@ by {
                            assert(seen@[k]@ == ts[k]);
                        }
                    }
                }
                let keep = !dup && t.unicode_len() > 0 && (skip_empty || *t != excl);
                if keep {
                    out.push(e.clone_entry());
                }
                seen.push(t.clone());
                proof {
                    assert(aps_view(out@) =~= offered(s.take(i + 1), excluded@));
                }
            },
            None => {
                proof {
                    assert(aps_view(out@) =~= offered(s.take(i + 1), excluded@));
                }
            },
        }
        i = i + 1;
    }
    assert(s.take(scan@.len() as int) =~= s);
    out
}

impl AccessPoint {
    /// A copy of the entry.
    pub fn clone_entry(&self) -> (r: AccessPoint)
        ensures
            r@ == self@,
    {
        let ssid = match &self.ssid {
            Some(t) => Some(t.clone()),
            None => None,
        };
        AccessPoint { ssid, security: self.security, strength: self.strength }
    }
}

/// The first entry whose SSID is exactly `ssid`.
pub fn find_access_point<'a>(access_points: &'a Vec<AccessPoint>, ssid: &str) -> (r: Option<
    &'a AccessPoint,
>)
    ensures
        r is None ==> forall|i: int|
            0 <= i < access_points@.len() ==> #[trigger] access_points@[i]@.ssid != Some(ssid@),
        r is Some ==> exists|i: int|
            0 <= i < access_points@.len() && access_points@[i] == *r->Some_0
                && access_points@[i]@.ssid == Some(ssid@) && forall|j: int|
                0 <= j < i ==> #[trigger] access_points@[j]@.ssid != Some(ssid@),
{
    let target = ssid.to_owned();
    let mut i: usize = 0;
    while i < access_points.len()
        invariant
            i <= access_points@.len(),
            target@ == ssid@,
            forall|j: int| 0 <= j < i ==> #[trigger] access_points@[j]@.ssid != Some(ssid@),
        decreases access_points@.len() - i,
    {
        let ap = &access_points[i];
        match &ap.ssid {
            Some(t) => {
                if *t == target {
                    return Some(ap);
                }
            },
            None => {},
        }
        i = i + 1;
    }
    None
}

/// The credentials to connect to `access_point`, after its security class.
pub fn init_access_point_credentials(access_point: &AccessPoint, identity: &str, passphrase: &str) -> (r:
    Credentials)
    ensures
        r@ == credentials_for(access_point.security, identity@, passphrase@),
{
    resolve_credentials(access_point.security, identity, passphrase)
}

/// A network as it is listed to users.
#[derive(Debug, Clone, PartialEq, Eq)]
pub struct Network {
    pub ssid: String,
    pub security: String,
}

/// The listing of an access point whose SSID is text.
pub fn get_network_info(access_point: &AccessPoint) -> (r: Network)
    requires
        access_point.ssid is Some,
    ensures
        r.ssid@ == access_point.ssid->Some_0@,
        r.security@ == class_name(classify(access_point.security)),
{
    let ssid = match &access_point.ssid {
        Some(t) => t.clone(),
        None => String::new(),
    };
    let security = classify_security(access_point.security).name().to_owned();
    Network { ssid, security }
}

/// The networks to list from one scan, in the order [`offered`] gives.
pub fn get_networks(scan: &Vec<AccessPoint>, excluded: &str) -> (r: Vec<Network>)
    ensures
        r@.len() == offered(aps_view(scan@), excluded@).len(),
        forall|i: int|
            0 <= i < r@.len() ==> {
                let e = #[trigger] offered(aps_view(scan@), excluded@)[i];
                &&& e.ssid == Some(r@[i].ssid@)
                &&& r@[i].security@ == class_name(classify(e.security))
            },
{
    let aps = filter_access_points(scan, excluded);
    let ghost off = offered(aps_view(scan@), excluded@);
    proof {
        lemma_offered_qualify(aps_view(scan@), excluded@);
    }
    let mut out: Vec<Network> = Vec::new();
    let mut i: usize = 0;
    while i < aps.len()
        invariant
            i <= aps@.len(),
            aps_view(aps@) == off,
            off == offered(aps_view(scan@), excluded@),
            forall|k: int| 0 <= k < off.len() ==> qualifies(#[trigger] off[k], excluded@),
            out@.len() == i,
            forall|k: int|
                0 <= k < i ==> {
                    let e = #[trigger] off[k];
                    &&& e.ssid == Some(out@[k].ssid@)
                    &&& out@[k].security@ == class_name(classify(e.security))
                },
        decreases aps@.len() - i,
    {
        assert(aps_view(aps@)[i as int] == aps@[i as int]@);
        assert(qualifies(off[i as int], excluded@));
        let n = get_network_info(&aps[i]);
        out.push(n);
        i = i + 1;
    }
    out
}

/// Every offered entry qualifies.
pub proof fn lemma_offered_qualify(s: Seq<AccessPointView>, excluded: Seq<char>)
    ensures
        forall|k: int|
            0 <= k < offered(s, excluded).len() ==> qualifies(
                #[trigger] offered(s, excluded)[k],
                excluded,
            ),
    decreases s.len(),
{
    if s.len() > 0 {
        lemma_offered_qualify(s.drop_last(), excluded);
        let prev = offered(s.drop_last(), excluded);
        let cur = offered(s, excluded);
        assert forall|k: int| 0 <= k < cur.len() implies qualifies(#[trigger] cur[k], excluded) by {
            if k < prev.len() {
                assert(cur[k] == prev[k]);
            }
        }
    }
}

/// How many scans discovery makes before it gives up.
pub const SCAN_ATTEMPTS: u32 = 10;

/// What discovery does after a scan.
#[derive(Debug, Clone, Copy, PartialEq, Eq, Structural)]
pub enum ScanStep {
    /// Access points were found: return them.
    Found,
    /// None yet: wait a second and scan again.
    Retry,
    /// None after the last attempt: return an empty list, which is no error.
    GiveUp,
}

/// The step after scan number `attempt` (counting from 1) offered
/// `offered_count` access points.
pub fn next_scan_step(attempt: u32, offered_count: usize) -> (r: ScanStep)
    requires
        1 <= attempt <= SCAN_ATTEMPTS,
    ensures
        offered_count > 0 ==> r == ScanStep::Found,
        offered_count == 0 && attempt < SCAN_ATTEMPTS ==> r == ScanStep::Retry,
        offered_count == 0 && attempt == SCAN_ATTEMPTS ==> r == ScanStep::GiveUp,
{
    if offered_count > 0 {
        ScanStep::Found
    } else if attempt < SCAN_ATTEMPTS {
        ScanStep::Retry
    } else {
        ScanStep::GiveUp
    }
}

} // verus!
