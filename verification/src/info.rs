//! One resolved service instance, held as plain values.
//!
//! The terminal layer builds an `Info` from whatever record the discovery
//! library resolved; the core only ever reads these fields. Two instances
//! are the same entity exactly when their host names are equal.

use vstd::prelude::*;
use crate::key::Key;
use crate::list::ListEntry;
use crate::widget::DiscoveryWidget;

verus! {

/// A resolved service endpoint.
#[derive(Clone, Debug)]
pub struct Info {
    /// Host name; the instance's identity.
    pub hostname: String,
    /// The category (service type) the instance belongs to.
    pub service_type: String,
    /// Addresses, already rendered as text.
    pub addresses: Vec<String>,
    /// TCP or UDP port.
    pub port: u16,
    /// TTL of the host records.
    pub host_ttl: u32,
    /// TTL of the other records.
    pub other_ttl: u32,
    /// Priority from the service record.
    pub priority: u16,
    /// Weight from the service record.
    pub weight: u16,
    /// Free-form properties, already rendered as text.
    pub properties: String,
}

impl PartialEq for Info {
    /// Equality is by host name alone.
    fn eq(&self, other: &Self) -> (r: bool) {
        self.hostname == other.hostname
    }
}

impl vstd::std_specs::cmp::PartialEqSpecImpl for Info {
    open spec fn obeys_eq_spec() -> bool {
        true
    }

    open spec fn eq_spec(&self, other: &Self) -> bool {
        self.hostname@ == other.hostname@
    }
}

impl ListEntry for Info {
    open spec fn id_spec(&self) -> Seq<char> {
        self.hostname@
    }

    open spec fn entry_spec(&self) -> Seq<char> {
        self.hostname@
    }

    fn id(&self) -> (s: String) {
        self.hostname.clone()
    }

    fn entry(&self) -> (s: String) {
        self.hostname.clone()
    }
}

impl DiscoveryWidget for Info {
    open spec fn title_spec(&self) -> Seq<char> {
        self.hostname@
    }

    open spec fn controls_spec(&self) -> Seq<char> {
        Seq::<char>::empty()
    }

    open spec fn widget_wf(&self) -> bool {
        true
    }

    /// The detail pane does not react to keys.
    open spec fn key_step(pre: Self, key: Key, post: Self) -> bool {
        post == pre
    }

    fn title(&self) -> (r: String) {
        self.hostname.clone()
    }

    fn controls(&self) -> (r: String) {
        String::new()
    }

    fn process_key_event(&mut self, key_event: &Key) {
    }
}

} // verus!
