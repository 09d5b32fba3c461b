//! The discovery feed's bookkeeping: turning a service advertisement's full
//! name into a device alias, and the table of currently visible devices.
//!
//! The caller listens to the local-network advertisement protocol and feeds
//! resolved and removed services in; the table upserts and retracts records
//! keyed by alias.

use vstd::prelude::*;
use vstd::string::StrSliceExecFns;
use vstd::string::StringExecFns;

use crate::models::DiscoveredCamera;

verus! {

/// `s` with every trailing occurrence of `pat` removed (and `s` itself when
/// `pat` is empty).
pub open spec fn strip_suffix_all(s: Seq<char>, pat: Seq<char>) -> Seq<char>
    decreases s.len(),
{
    if pat.len() > 0 && s.len() >= pat.len() && s.subrange(
        s.len() - pat.len(),
        s.len() as int,
    ) == pat {
        strip_suffix_all(s.subrange(0, s.len() - pat.len()), pat)
    } else {
        s
    }
}

/// The alias under which an advertised service is listed: its full name with
/// the service type and any trailing dots stripped.
pub open spec fn service_alias_seq(fullname: Seq<char>) -> Seq<char> {
    strip_suffix_all(strip_suffix_all(fullname, "_avolocam._tcp.local."@), "."@)
}

/// Whether `pat` is a suffix of `s`, character for character.
fn ends_with(s: &str, pat: &str) -> (r: bool)
    ensures
        r == (s@.len() >= pat@.len() && s@.subrange(s@.len() - pat@.len(), s@.len() as int)
            == pat@),
{
    let n = s.unicode_len();
    let m = pat.unicode_len();
    if n < m {
        return false;
    }
    let mut i: usize = 0;
    while i < m
        invariant
            n == s@.len(),
            m == pat@.len(),
            m <= n,
            i <= m,
            forall|j: int| 0 <= j < i ==> s@[n - m + j] == pat@[j],
        decreases m - i,
    {
        let a = s.get_char(n - m + i);
        let b = pat.get_char(i);
        if a != b {
            proof {
                let sub = s@.subrange(n - m as int, n as int);
                assert(sub[i as int] == s@[n - m + i]);
                assert(sub[i as int] != pat@[i as int]);
            }
            return false;
        }
        i = i + 1;
    }
    proof {
        assert(s@.subrange(n - m as int, n as int) =~= pat@);
    }
    true
}

/// Removes every trailing occurrence of `pat`, exactly as `strip_suffix_all`
/// describes.
fn trim_suffix_all(s: &str, pat: &str) -> (r: String)
    ensures
        r@ == strip_suffix_all(s@, pat@),
    decreases s@.len(),
{
    let m = pat.unicode_len();
    if m == 0 {
        return s.to_owned();
    }
    if ends_with(s, pat) {
        let n = s.unicode_len();
        let head = s.substring_char(0, n - m);
        trim_suffix_all(head, pat)
    } else {
        s.to_owned()
    }
}

/// The alias of an advertised service, from its full name.
pub fn service_alias(fullname: &str) -> (alias: String)
    ensures
        alias@ == service_alias_seq(fullname@),
{
    let head = trim_suffix_all(fullname, "_avolocam._tcp.local.");
    trim_suffix_all(head.as_str(), ".")
}

pub open spec fn has_alias(entries: Seq<DiscoveredCamera>, alias: Seq<char>) -> bool {
    exists|i: int| 0 <= i < entries.len() && entries[i].alias@ == alias
}

pub open spec fn alias_index(entries: Seq<DiscoveredCamera>, alias: Seq<char>) -> int {
    choose|i: int| 0 <= i < entries.len() && entries[i].alias@ == alias
}

pub open spec fn unique_aliases(entries: Seq<DiscoveredCamera>) -> bool {
    forall|i: int, j: int| 0 <= i < j < entries.len() ==> entries[i].alias@ != entries[j].alias@
}

/// The devices currently visible on the local network, keyed by alias.
#[derive(Debug)]
pub struct DiscoveryTable {
    pub entries: Vec<DiscoveredCamera>,
}

impl DiscoveryTable {
    pub open spec fn wf(self) -> bool {
        unique_aliases(self.entries@)
    }

    pub fn new() -> (r: Self)
        ensures
            r.entries@ == Seq::<DiscoveredCamera>::empty(),
            r.wf(),
    {
        let r = DiscoveryTable { entries: Vec::new() };
        proof {
            assert(r.entries@ =~= Seq::<DiscoveredCamera>::empty());
        }
        r
    }

    /// Index of the record for `alias`, if one exists.
    fn find_alias_index(&self, alias: &String) -> (r: Option<usize>)
        ensures
            match r {
                Some(i) => i < self.entries@.len() && self.entries@[i as int].alias@ == alias@,
                None => !has_alias(self.entries@, alias@),
            },
    {
        let n = self.entries.len();
        let mut i: usize = 0;
        while i < n
            invariant
                n == self.entries@.len(),
                i <= n,
                forall|j: int| 0 <= j < i ==> self.entries@[j].alias@ != alias@,
            decreases n - i,
        {
            if self.entries[i].alias == *alias {
                return Some(i);
            }
            i = i + 1;
        }
        None
    }

    /// Records a resolved advertisement: the record for its alias is replaced
    /// in place, or appended when the alias is new.
    pub fn upsert(&mut self, camera: DiscoveredCamera)
        requires
            old(self).wf(),
        ensures
            final(self).wf(),
            final(self).entries@ == (if has_alias(old(self).entries@, camera.alias@) {
                old(self).entries@.update(alias_index(old(self).entries@, camera.alias@), camera)
            } else {
                old(self).entries@.push(camera)
            }),
    {
        let alias = camera.alias.clone();
        match self.find_alias_index(&alias) {
            Some(i) => {
                proof {
                    let k = alias_index(self.entries@, camera.alias@);
                    assert(0 <= k < self.entries@.len() && self.entries@[k].alias@
                        == camera.alias@);
                    assert(k == i as int);
                }
                self.entries.set(i, camera);
            },
            None => {
                self.entries.push(camera);
            },
        }
    }

    /// Retracts the record for `alias`; a retraction for an unknown alias is
    /// a no-op.
    pub fn remove(&mut self, alias: &String)
        requires
            old(self).wf(),
        ensures
            final(self).wf(),
            has_alias(old(self).entries@, alias@) ==> final(self).entries@ == old(
                self,
            ).entries@.remove(alias_index(old(self).entries@, alias@)),
            !has_alias(old(self).entries@, alias@) ==> *final(self) == *old(self),
    {
        match self.find_alias_index(alias) {
            Some(i) => {
                proof {
                    let k = alias_index(self.entries@, alias@);
                    assert(0 <= k < self.entries@.len() && self.entries@[k].alias@ == alias@);
                    assert(k == i as int);
                }
                self.entries.remove(i);
            },
            None => {},
        }
    }

    /// A copy of every currently visible device, in discovery order.
    pub fn get_discovered(&self) -> (res: Vec<DiscoveredCamera>)
        ensures
            res@.len() == self.entries@.len(),
            forall|i: int|
                0 <= i < self.entries@.len() ==> (#[trigger] res@[i]).eq_val(self.entries@[i]),
    {
        let n = self.entries.len();
        let mut res: Vec<DiscoveredCamera> = Vec::new();
        let mut i: usize = 0;
        while i < n
            invariant
                n == self.entries@.len(),
                i <= n,
                res@.len() == i,
                forall|j: int| 0 <= j < i ==> (#[trigger] res@[j]).eq_val(self.entries@[j]),
            decreases n - i,
        {
            res.push(self.entries[i].clone());
            i = i + 1;
        }
        res
    }
}

} // verus!
