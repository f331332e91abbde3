//! The background discovery-event aggregator.
//!
//! The surrounding loop performs the blocking wait over the event sources
//! and the shutdown signal; this module makes every decision: how one event
//! folds into the shared collections, which new event source to request,
//! and when to stop. The registry of source names grows as categories are
//! discovered and is never shrunk; it is shut down only as a whole.

use vstd::prelude::*;
use crate::info::Info;
use crate::instances::InstanceMap;
use crate::list::ListWidget;

verus! {

/// One tagged event delivered by an event source. The search-lifecycle
/// notifications carry no state-changing obligation.
#[derive(Debug)]
pub enum ServiceEvent {
    /// A category (service type) and the full name found under it.
    Found(String, String),
    /// A resolved service instance.
    Resolved(Info),
    /// A category and the full name removed under it.
    Removed(String, String),
    /// Discovery started for a name.
    SearchStarted(String),
    /// Discovery stopped for a name.
    SearchStopped(String),
}

/// What woke the background loop: an event from some source, or the
/// shutdown signal.
#[derive(Debug)]
pub enum Wakeup {
    Event(ServiceEvent),
    Stop,
}

/// What the loop must do next: go on, go on after requesting a new event
/// source for the named category, or exit.
#[derive(Debug)]
pub enum Action {
    Continue,
    Browse(String),
    Stop,
}

/// A fresh, empty, unfiltered instance collection carrying `name`.
pub open spec fn fresh_list(w: ListWidget<Info>, name: Seq<char>) -> bool {
    &&& w.items@.len() == 0
    &&& w.cursor is None
    &&& w.search_regex is None
    &&& w.search.search is None
    &&& w.current_mode is Display
    &&& w.name@ == name
}

/// The aggregator: the query submitted at startup and the registry of
/// active event-source names (the root source first).
#[derive(Debug)]
pub struct Aggregator {
    /// The query submitted at startup.
    pub query: String,
    /// Names of the active event sources.
    pub sources: Vec<String>,
}

impl Aggregator {
    /// An aggregator for `query`, with the root source registered.
    pub fn new(query: String) -> (r: Self)
        ensures
            r.query == query,
            r.sources@.len() == 1,
            r.sources@[0] == query,
    {
        let mut sources: Vec<String> = Vec::new();
        let q = query.clone();
        sources.push(q);
        Aggregator { query, sources }
    }

    /// How one event folds into the collections, per the routing rules:
    /// a category found under the submitted query is inserted and, when
    /// newly tracked, gets an empty instance collection and a new event
    /// source; a resolved instance joins its category's collection; a
    /// removal under the query drops the category and its collection, any
    /// other removal removes the matching instance; lifecycle events change
    /// nothing. `browse` is the category a new source must be requested
    /// for, if any.
    pub open spec fn event_step(
        query: Seq<char>,
        event: ServiceEvent,
        pre_s: ListWidget<String>,
        pre_m: InstanceMap,
        post_s: ListWidget<String>,
        post_m: InstanceMap,
        browse: Option<Seq<char>>,
    ) -> bool {
        match event {
            ServiceEvent::Found(service_type, full_name) => if service_type@ == query {
                &&& ListWidget::push_step(pre_s, full_name, post_s)
                &&& ListWidget::same_shell(pre_s, post_s)
                &&& if pre_m.has_key(full_name@) {
                    &&& post_m == pre_m
                    &&& browse is None
                } else {
                    &&& exists|w: ListWidget<Info>|
                        fresh_list(w, full_name@) && post_m.entries@ == pre_m.entries@.push(
                            (full_name, w),
                        )
                    &&& browse == Some(full_name@)
                }
            } else {
                &&& post_s == pre_s
                &&& post_m == pre_m
                &&& browse is None
            },
            ServiceEvent::Resolved(info) => {
                &&& post_s == pre_s
                &&& browse is None
                &&& if pre_m.has_key(info.service_type@) {
                    post_m.entries@ == pre_m.entries@.update(
                        pre_m.index_of_spec(info.service_type@),
                        (
                            pre_m.entries@[pre_m.index_of_spec(info.service_type@)].0,
                            post_m.at_key(info.service_type@),
                        ),
                    ) && ListWidget::push_step(
                        pre_m.at_key(info.service_type@),
                        info,
                        post_m.at_key(info.service_type@),
                    )
                } else {
                    post_m == pre_m
                }
            },
            ServiceEvent::Removed(service_type, full_name) => {
                &&& browse is None
                &&& if service_type@ == query {
                    &&& ListWidget::remove_step(pre_s, full_name@, post_s)
                    &&& ListWidget::same_shell(pre_s, post_s)
                    &&& !post_m.has_key(full_name@)
                    &&& if pre_m.has_key(full_name@) {
                        post_m.entries@ == pre_m.entries@.remove(
                            pre_m.index_of_spec(full_name@),
                        )
                    } else {
                        post_m.entries@ == pre_m.entries@
                    }
                } else {
                    &&& post_s == pre_s
                    &&& if pre_m.has_key(service_type@) {
                        post_m.entries@ == pre_m.entries@.update(
                            pre_m.index_of_spec(service_type@),
                            (
                                pre_m.entries@[pre_m.index_of_spec(service_type@)].0,
                                post_m.at_key(service_type@),
                            ),
                        ) && ListWidget::remove_step(
                            pre_m.at_key(service_type@),
                            full_name@,
                            post_m.at_key(service_type@),
                        )
                    } else {
                        post_m == pre_m
                    }
                }
            },
            ServiceEvent::SearchStarted(_) => post_s == pre_s && post_m == pre_m && browse is None,
            ServiceEvent::SearchStopped(_) => post_s == pre_s && post_m == pre_m && browse is None,
        }
    }

    /// Folds one event into the shared collections; returns the category a
    /// new event source must be requested for, if any, after registering it.
    pub fn handle_event(
        &mut self,
        event: ServiceEvent,
        services: &mut ListWidget<String>,
        instances: &mut InstanceMap,
    ) -> (browse: Option<String>)
        requires
            old(services).wf(),
            old(instances).wf(),
        ensures
            final(services).wf(),
            final(instances).wf(),
            final(self).query == old(self).query,
            Self::event_step(
                old(self).query@,
                event,
                *old(services),
                *old(instances),
                *final(services),
                *final(instances),
                match browse {
                    Some(b) => Some(b@),
                    None => None,
                },
            ),
            match browse {
                Some(b) => final(self).sources@ == old(self).sources@.push(b),
                None => final(self).sources@ == old(self).sources@,
            },
    {
        match event {
            ServiceEvent::Found(service_type, full_name) => {
                if service_type == self.query {
                    services.push(full_name.clone());
                    if !instances.contains_key(&full_name) {
                        let fresh = ListWidget::<Info>::default().name(full_name.clone());
                        proof {
                            assert(fresh_list(fresh, full_name@));
                        }
                        instances.insert(full_name.clone(), fresh);
                        let registered = full_name.clone();
                        self.sources.push(registered);
                        return Some(full_name);
                    }
                }
                None
            },
            ServiceEvent::Resolved(info) => {
                let key = info.service_type.clone();
                instances.push_instance(&key, info);
                None
            },
            ServiceEvent::Removed(service_type, full_name) => {
                if service_type == self.query {
                    services.remove(&full_name);
                    instances.remove(&full_name);
                } else {
                    instances.remove_instance(&service_type, &full_name);
                }
                None
            },
            ServiceEvent::SearchStarted(_) => None,
            ServiceEvent::SearchStopped(_) => None,
        }
    }

    /// One decision of the background loop: the shutdown signal stops the
    /// loop at once, whatever the number of registered sources and without
    /// touching the collections; an event is folded in, possibly asking for
    /// a new source.
    pub fn handle_wakeup(
        &mut self,
        wakeup: Wakeup,
        services: &mut ListWidget<String>,
        instances: &mut InstanceMap,
    ) -> (r: Action)
        requires
            old(services).wf(),
            old(instances).wf(),
        ensures
            final(services).wf(),
            final(instances).wf(),
            final(self).query == old(self).query,
            wakeup is Stop ==> r is Stop && *final(self) == *old(self) && *final(services) == *old(
                services,
            ) && *final(instances) == *old(instances),
            wakeup matches Wakeup::Event(event) ==> {
                &&& Self::event_step(
                    old(self).query@,
                    event,
                    *old(services),
                    *old(instances),
                    *final(services),
                    *final(instances),
                    match r {
                        Action::Browse(b) => Some(b@),
                        _ => None,
                    },
                )
                &&& match r {
                    Action::Browse(b) => final(self).sources@ == old(self).sources@.push(b),
                    Action::Continue => final(self).sources@ == old(self).sources@,
                    Action::Stop => false,
                }
            },
    {
        match wakeup {
            Wakeup::Stop => Action::Stop,
            Wakeup::Event(event) => {
                let browse = self.handle_event(event, services, instances);
                match browse {
                    Some(b) => Action::Browse(b),
                    None => Action::Continue,
                }
            },
        }
    }
}

} // verus!
