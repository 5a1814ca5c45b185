//! Host network facts, decided on plain interface records.

use vstd::prelude::*;

verus! {

/// One network interface, reduced to what the choice reads.
#[derive(Debug)]
pub struct IfaceRecord {
    pub is_loopback: bool,
    pub is_ipv4: bool,
    pub ip: String,
}

/// Whether this interface is the kind the local address is taken from.
pub open spec fn iface_eligible(is_loopback: bool, is_ipv4: bool) -> bool {
    !is_loopback && is_ipv4
}

pub ghost struct IfaceRecordV {
    pub is_loopback: bool,
    pub is_ipv4: bool,
    pub ip: Seq<char>,
}

impl View for IfaceRecord {
    type V = IfaceRecordV;

    open spec fn view(&self) -> IfaceRecordV {
        IfaceRecordV { is_loopback: self.is_loopback, is_ipv4: self.is_ipv4, ip: self.ip@ }
    }
}

pub open spec fn ifaces_view(s: Seq<IfaceRecord>) -> Seq<IfaceRecordV> {
    s.map_values(|r: IfaceRecord| r@)
}

/// The first non-loopback IPv4 interface, from position `i` on.
pub open spec fn first_eligible_iface(s: Seq<IfaceRecordV>, i: int) -> Option<int>
    decreases s.len() - i when 0 <= i <= s.len()
{
    if i >= s.len() {
        None
    } else if iface_eligible(s[i].is_loopback, s[i].is_ipv4) {
        Some(i)
    } else {
        first_eligible_iface(s, i + 1)
    }
}

/// The host's local address: the address of the first non-loopback IPv4
/// interface, if the host has one.
pub fn pick_local_ip(ifaces: &Vec<IfaceRecord>) -> (r: Option<String>)
    ensures
        match first_eligible_iface(ifaces_view(ifaces@), 0) {
            Some(k) => r matches Some(ip) && ip@ == ifaces_view(ifaces@)[k].ip,
            None => r is None,
        },
{
    let ghost fvs = ifaces_view(ifaces@);
    let mut k: usize = 0;
    while k < ifaces.len()
        invariant
            k <= ifaces@.len(),
            fvs == ifaces_view(ifaces@),
            first_eligible_iface(fvs, 0) == first_eligible_iface(fvs, k as int),
        decreases ifaces@.len() - k,
    {
        proof {
            assert(fvs[k as int] == ifaces@[k as int]@);
        }
        if !ifaces[k].is_loopback && ifaces[k].is_ipv4 {
            return Some(ifaces[k].ip.clone());
        }
        k = k + 1;
    }
    None
}

} // verus!
