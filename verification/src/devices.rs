//! Descriptions of tuner adapters attached to the system.
//!
//! Walking the device-class filesystem is plain input work done by the
//! surrounding application; this module holds the logic of it: splitting
//! an entry name into device and node, counting the sub-device nodes of an
//! adapter, and building the device paths.

use vstd::prelude::*;

use vstd::string::StrSliceExecFns;
use vstd::string::StringExecFns;

verus! {

/// Whether `p` is a prefix of `s`.
pub open spec fn is_prefix_of(p: Seq<char>, s: Seq<char>) -> bool {
    p.len() <= s.len() && s.subrange(0, p.len() as int) == p
}

/// Whether `s` begins with `prefix`.
pub fn starts_with(s: &str, prefix: &str) -> (r: bool)
    ensures
        r == is_prefix_of(prefix@, s@),
{
    let n = prefix.unicode_len();
    let m = s.unicode_len();
    if n > m {
        return false;
    }
    let mut i: usize = 0;
    while i < n
        invariant
            i <= n,
            n == prefix@.len(),
            m == s@.len(),
            n <= m,
            forall|j: int| 0 <= j < i ==> s@[j] == prefix@[j],
        decreases n - i,
    {
        if s.get_char(i) != prefix.get_char(i) {
            proof {
                if is_prefix_of(prefix@, s@) {
                    assert(s@.subrange(0, n as int)[i as int] == prefix@[i as int]);
                }
            }
            return false;
        }
        i = i + 1;
    }
    proof {
        assert(s@.subrange(0, n as int) =~= prefix@);
    }
    true
}

/// The rest of `s` after `prefix`, when `s` begins with it.
pub fn strip_prefix_str(s: &str, prefix: &str) -> (r: Option<String>)
    ensures
        r is Some <==> is_prefix_of(prefix@, s@),
        r matches Some(rest) ==> rest@ == s@.subrange(prefix@.len() as int, s@.len() as int),
{
    if starts_with(s, prefix) {
        let n = prefix.unicode_len();
        let m = s.unicode_len();
        Some(s.substring_char(n, m).to_owned())
    } else {
        None
    }
}

/// Split a device-class entry name at its first dot into the device part
/// and the node part; nothing when the name has no dot.
pub fn split_device_node(s: &str) -> (r: Option<(String, String)>)
    ensures
        r is None ==> forall|i: int| 0 <= i < s@.len() ==> s@[i] != '.',
        r matches Some(parts) ==> exists|i: int|
            {
                &&& 0 <= i < s@.len()
                &&& s@[i] == '.'
                &&& forall|j: int| 0 <= j < i ==> s@[j] != '.'
                &&& parts.0@ == s@.subrange(0, i)
                &&& parts.1@ == s@.subrange(i + 1, s@.len() as int)
            },
{
    let m = s.unicode_len();
    let mut i: usize = 0;
    while i < m
        invariant
            i <= m,
            m == s@.len(),
            forall|j: int| 0 <= j < i ==> s@[j] != '.',
        decreases m - i,
    {
        if s.get_char(i) == '.' {
            let device = s.substring_char(0, i).to_owned();
            let node = s.substring_char(i + 1, m).to_owned();
            let r = Some((device, node));
            proof {
                let parts = r->Some_0;
                assert({
                    &&& 0 <= i < s@.len()
                    &&& s@[i as int] == '.'
                    &&& forall|j: int| 0 <= j < i ==> s@[j] != '.'
                    &&& parts.0@ == s@.subrange(0, i as int)
                    &&& parts.1@ == s@.subrange(i + 1, s@.len() as int)
                });
            }
            return r;
        }
        i = i + 1;
    }
    None
}

/// How many of `nodes` begin with `prefix`.
pub open spec fn count_prefixed(nodes: Seq<String>, prefix: Seq<char>) -> int
    decreases nodes.len(),
{
    if nodes.len() == 0 {
        0
    } else {
        count_prefixed(nodes.drop_last(), prefix) + if is_prefix_of(prefix, nodes.last()@) {
            1int
        } else {
            0int
        }
    }
}

/// Count the nodes that begin with `prefix`.
pub fn count_prefixed_nodes(nodes: &Vec<String>, prefix: &str) -> (n: usize)
    ensures
        n as int == count_prefixed(nodes@, prefix@),
        n <= nodes@.len(),
{
    let mut n: usize = 0;
    let mut i: usize = 0;
    while i < nodes.len()
        invariant
            i <= nodes@.len(),
            n <= i,
            n as int == count_prefixed(nodes@.subrange(0, i as int), prefix@),
        decreases nodes@.len() - i,
    {
        if starts_with(nodes[i].as_str(), prefix) {
            n = n + 1;
        }
        proof {
            assert(nodes@.subrange(0, i + 1).drop_last() =~= nodes@.subrange(0, i as int));
            assert(nodes@.subrange(0, i + 1).last() == nodes@[i as int]);
        }
        i = i + 1;
    }
    proof {
        assert(nodes@.subrange(0, nodes@.len() as int) =~= nodes@);
    }
    n
}

/// The device path of an adapter: the device tree root for tuners,
/// followed by the adapter's id.
pub fn format_dev_adapter(adapter_id: &str) -> (r: String)
    ensures
        r@ == "/dev/dvb/adapter"@ + adapter_id@,
{
    let mut path = "/dev/dvb/adapter".to_owned();
    path.append(adapter_id);
    path
}

/// A digital-TV adapter attached to the system.
#[derive(Debug)]
pub struct Adapter {
    pub adapter_id: String,
    pub manufacturer: String,
    pub product: String,
    pub id_vendor: String,
    pub id_product: String,
    pub serial: String,
    pub frontend_count: usize,
    pub demux_count: usize,
    pub dvr_count: usize,
    pub net_count: usize,
}

impl Adapter {
    /// Describe one adapter from its id, its identification strings, and
    /// the names of its device-class nodes: each count is the number of
    /// nodes of that kind.
    pub fn from_listing(
        adapter_id: String,
        manufacturer: String,
        product: String,
        id_vendor: String,
        id_product: String,
        serial: String,
        nodes: &Vec<String>,
    ) -> (r: Adapter)
        ensures
            r.adapter_id == adapter_id,
            r.manufacturer == manufacturer,
            r.product == product,
            r.id_vendor == id_vendor,
            r.id_product == id_product,
            r.serial == serial,
            r.frontend_count as int == count_prefixed(nodes@, "frontend"@),
            r.demux_count as int == count_prefixed(nodes@, "demux"@),
            r.dvr_count as int == count_prefixed(nodes@, "dvr"@),
            r.net_count as int == count_prefixed(nodes@, "net"@),
    {
        let frontend_count = count_prefixed_nodes(nodes, "frontend");
        let demux_count = count_prefixed_nodes(nodes, "demux");
        let dvr_count = count_prefixed_nodes(nodes, "dvr");
        let net_count = count_prefixed_nodes(nodes, "net");
        Adapter {
            adapter_id,
            manufacturer,
            product,
            id_vendor,
            id_product,
            serial,
            frontend_count,
            demux_count,
            dvr_count,
            net_count,
        }
    }

    /// Returns the manufacturer string of the device.
    pub fn manufacturer(&self) -> (r: &str)
        ensures
            r@ == self.manufacturer@,
    {
        self.manufacturer.as_str()
    }

    /// Returns a description of the device.
    pub fn product(&self) -> (r: &str)
        ensures
            r@ == self.product@,
    {
        self.product.as_str()
    }

    /// Returns the vendor id of the device.
    pub fn id_vendor(&self) -> (r: &str)
        ensures
            r@ == self.id_vendor@,
    {
        self.id_vendor.as_str()
    }

    /// Returns the product id of the device.
    pub fn id_product(&self) -> (r: &str)
        ensures
            r@ == self.id_product@,
    {
        self.id_product.as_str()
    }

    /// Returns a serial number for this device. Useful to disambiguate
    /// multiple identical adapters.
    pub fn serial(&self) -> (r: &str)
        ensures
            r@ == self.serial@,
    {
        self.serial.as_str()
    }

    /// Returns the path of the first tuner node of this adapter.
    pub fn get_first_frontend(&self) -> (r: String)
        requires
            self.frontend_count >= 1,
        ensures
            r@ == "/dev/dvb/adapter"@ + self.adapter_id@ + "/frontend0"@,
    {
        let mut path = format_dev_adapter(self.adapter_id.as_str());
        path.append("/frontend0");
        path
    }

    /// Returns the path of the first demultiplexer node of this adapter.
    pub fn get_first_demux(&self) -> (r: String)
        requires
            self.demux_count >= 1,
        ensures
            r@ == "/dev/dvb/adapter"@ + self.adapter_id@ + "/demux0"@,
    {
        let mut path = format_dev_adapter(self.adapter_id.as_str());
        path.append("/demux0");
        path
    }

    /// Returns the path of the first recording node of this adapter, when
    /// it has one.
    pub fn get_first_dvr(&self) -> (r: Option<String>)
        ensures
            r is Some <==> self.dvr_count >= 1,
            r matches Some(path) ==> path@ == "/dev/dvb/adapter"@ + self.adapter_id@ + "/dvr0"@,
    {
        if self.dvr_count < 1 {
            return None;
        }
        let mut path = format_dev_adapter(self.adapter_id.as_str());
        path.append("/dvr0");
        Some(path)
    }

    /// Returns the path of the first network node of this adapter, when it
    /// has one.
    pub fn get_first_net(&self) -> (r: Option<String>)
        ensures
            r is Some <==> self.net_count >= 1,
            r matches Some(path) ==> path@ == "/dev/dvb/adapter"@ + self.adapter_id@ + "/net0"@,
    {
        if self.net_count < 1 {
            return None;
        }
        let mut path = format_dev_adapter(self.adapter_id.as_str());
        path.append("/net0");
        Some(path)
    }
}

} // verus!
