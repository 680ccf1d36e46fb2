//! Service entries: the ports under which each component is reached.
use vstd::prelude::*;

verus! {

/// How one component is reached: its host port, its container port and the
/// path it is mounted under, if any.
pub struct ServiceSpec {
    pub name: String,
    pub port: u16,
    pub target_port: u16,
    pub mount_point: Option<String>,
}

/// The service table: one entry per component that has both ports.
pub type ServicesSpec = Vec<ServiceSpec>;

impl ServiceSpec {
    pub fn duplicate(&self) -> (r: ServiceSpec)
        ensures
            r == *self,
    {
        ServiceSpec {
            name: self.name.clone(),
            port: self.port,
            target_port: self.target_port,
            mount_point: crate::text::clone_opt(&self.mount_point),
        }
    }
}

pub fn duplicate_services(s: &Vec<ServiceSpec>) -> (r: Vec<ServiceSpec>)
    ensures
        r@ == s@,
{
    let mut r: Vec<ServiceSpec> = Vec::new();
    let mut i: usize = 0;
    while i < s.len()
        invariant
            i <= s.len(),
            r@ == s@.subrange(0, i as int),
        decreases s.len() - i,
    {
        r.push(s[i].duplicate());
        i = i + 1;
    }
    assert(r@ =~= s@);
    r
}

} // verus!
