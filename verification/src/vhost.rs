//! The virtual-host table: an ordered sequence of hostname-to-document-root
//! mappings, queried by exact hostname match with the first match winning.
//! The table is built once at configuration load and read-only afterwards;
//! every connection queries the same immutable snapshot.

use vstd::prelude::*;

use crate::bytes::{range_eq, subvec};
use vstd::string::{StrSliceExecFns, StringSliceAdditionalSpecFns};

verus! {

/// One name-based virtual host: a hostname and the document root it serves.
pub struct VirtualHost {
    pub hostname: Vec<u8>,
    pub dir: Vec<u8>,
}

/// The mathematical image of a virtual host.
pub ghost struct VHostView {
    pub hostname: Seq<u8>,
    pub dir: Seq<u8>,
}

impl View for VirtualHost {
    type V = VHostView;

    open spec fn view(&self) -> VHostView {
        VHostView { hostname: self.hostname@, dir: self.dir@ }
    }
}

impl VirtualHost {
    /// A virtual host serving `dir` for requests whose `Host` header names
    /// `hostname`.
    pub fn new(hostname: &str, dir: &str) -> (r: Self)
        ensures
            r@.hostname == hostname.spec_bytes(),
            r@.dir == dir.spec_bytes(),
    {
        VirtualHost { hostname: hostname.as_bytes_vec(), dir: dir.as_bytes_vec() }
    }
}

/// The ordered table of configured virtual hosts.
pub struct VirtualHosts(pub Vec<VirtualHost>);

impl View for VirtualHosts {
    type V = Seq<VHostView>;

    open spec fn view(&self) -> Seq<VHostView> {
        self.0@.map_values(|h: VirtualHost| h@)
    }
}

pub open spec fn spec_resolve_from(t: Seq<VHostView>, host: Seq<u8>, i: int) -> Option<Seq<u8>>
    decreases t.len() - i,
{
    if i < 0 || i >= t.len() {
        None
    } else if t[i].hostname == host {
        Some(t[i].dir)
    } else {
        spec_resolve_from(t, host, i + 1)
    }
}

/// The document root of the first table entry whose hostname equals `host`
/// exactly, if any.
pub open spec fn spec_resolve(t: Seq<VHostView>, host: Seq<u8>) -> Option<Seq<u8>> {
    spec_resolve_from(t, host, 0)
}

impl VirtualHosts {
    /// The table entries in configuration order.
    pub fn iter(&self) -> (r: &Vec<VirtualHost>)
        ensures
            r@ == self.0@,
            r@.map_values(|h: VirtualHost| h@) == self@,
    {
        &self.0
    }

    /// The document root serving `host`: the first entry with that exact
    /// hostname, or `None` when no entry matches.
    pub fn resolve(&self, host: &Vec<u8>) -> (r: Option<Vec<u8>>)
        ensures
            match r {
                Some(d) => spec_resolve(self@, host@) == Some(d@),
                None => spec_resolve(self@, host@) is None,
            },
    {
        let ghost t = self@;
        let mut i: usize = 0;
        while i < self.0.len()
            invariant
                i <= self.0.len(),
                t == self@,
                t.len() == self.0.len(),
                forall|j: int| 0 <= j < t.len() ==> #[trigger] t[j] == self.0[j]@,
                spec_resolve(t, host@) == spec_resolve_from(t, host@, i as int),
            decreases self.0.len() - i,
        {
            let name = &self.0[i].hostname;
            if range_eq(name, 0, name.len(), host) {
                proof {
                    assert(name@.subrange(0, name@.len() as int) =~= name@);
                }
                let d = subvec(&self.0[i].dir, 0, self.0[i].dir.len());
                proof {
                    assert(d@ =~= t[i as int].dir);
                }
                return Some(d);
            }
            proof {
                assert(name@.subrange(0, name@.len() as int) =~= name@);
                assert(t[i as int].hostname != host@);
            }
            i = i + 1;
        }
        None
    }
}

impl From<Vec<VirtualHost>> for VirtualHosts {
    /// A table holding exactly the given entries, in order.
    fn from(entries: Vec<VirtualHost>) -> (r: Self) {
        VirtualHosts(entries)
    }
}

impl vstd::std_specs::convert::FromSpecImpl<Vec<VirtualHost>> for VirtualHosts {
    open spec fn obeys_from_spec() -> bool {
        true
    }

    open spec fn from_spec(entries: Vec<VirtualHost>) -> Self {
        VirtualHosts(entries)
    }
}

} // verus!
