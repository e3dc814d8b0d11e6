//! The brokers requests go to.

use vstd::prelude::*;

verus! {

/// One data broker from the directory.
#[derive(Debug, Clone, Default, PartialEq, Eq)]
pub struct Broker {
    pub id: String,
    pub name: String,
    /// Where removal requests go.
    pub email: String,
    pub website: String,
    pub opt_out_url: String,
    pub region: String,
    pub category: String,
    pub notes: String,
    pub requires_id: bool,
    pub tags: Vec<String>,
}

/// Two broker entries that hold the same values.
pub open spec fn same_broker(a: Broker, b: Broker) -> bool {
    &&& a.id@ == b.id@
    &&& a.name@ == b.name@
    &&& a.email@ == b.email@
    &&& a.website@ == b.website@
    &&& a.opt_out_url@ == b.opt_out_url@
    &&& a.region@ == b.region@
    &&& a.category@ == b.category@
    &&& a.notes@ == b.notes@
    &&& a.requires_id == b.requires_id
    &&& a.tags@ == b.tags@
}

impl Broker {
    /// A copy holding the same values.
    pub fn duplicate(&self) -> (r: Broker)
        ensures
            same_broker(r, *self),
    {
        let tags = self.tags.clone();
        assert(tags@ =~= self.tags@);
        Broker {
            id: self.id.clone(),
            name: self.name.clone(),
            email: self.email.clone(),
            website: self.website.clone(),
            opt_out_url: self.opt_out_url.clone(),
            region: self.region.clone(),
            category: self.category.clone(),
            notes: self.notes.clone(),
            requires_id: self.requires_id,
            tags,
        }
    }
}

} // verus!
