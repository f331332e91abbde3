//! The foreground controller: two panes over the shared collections and the
//! key routing between them.
//!
//! The controller never mutates discovery-sourced data: it only moves
//! selections and filters, by delegating to whichever collection the active
//! pane shows.

use vstd::prelude::*;
use crate::instances::InstanceMap;
use crate::key::Key;
use crate::list::ListWidget;
use crate::widget::DiscoveryWidget;

verus! {

/// The active pane.
#[derive(Clone, Copy, PartialEq, Eq, Structural, Debug)]
pub enum Tab {
    Services,
    Instances,
}

/// Whether the run loop goes on.
#[derive(Clone, Copy, PartialEq, Eq, Structural, Debug)]
pub enum State {
    Running,
    Exit,
}

/// The top-level controller state.
#[derive(Clone, Copy, PartialEq, Eq, Structural, Debug)]
pub struct App {
    /// The pane keys are routed to.
    pub current_tab: Tab,
}

impl App {
    /// A controller showing the category pane.
    pub fn new() -> (r: Self)
        ensures
            r.current_tab is Services,
    {
        App { current_tab: Tab::Services }
    }

    /// Routes one key press. The exit key ends the run loop; the pane-switch
    /// keys select a specific pane; every other key goes to the collection
    /// the active pane shows: the category collection, or the instance
    /// collection of the currently selected category (a no-op when no
    /// category is selected or the selected one is not tracked).
    pub fn handle_event(
        &mut self,
        key_event: &Key,
        services: &mut ListWidget<String>,
        instances: &mut InstanceMap,
    ) -> (r: State)
        requires
            old(services).wf(),
            old(instances).wf(),
        ensures
            final(services).wf(),
            final(instances).wf(),
            match *key_event {
                Key::CtrlQ => {
                    &&& r is Exit
                    &&& *final(self) == *old(self)
                    &&& *final(services) == *old(services)
                    &&& *final(instances) == *old(instances)
                },
                Key::Left => {
                    &&& r is Running
                    &&& final(self).current_tab is Services
                    &&& *final(services) == *old(services)
                    &&& *final(instances) == *old(instances)
                },
                Key::Right => {
                    &&& r is Running
                    &&& final(self).current_tab is Instances
                    &&& *final(services) == *old(services)
                    &&& *final(instances) == *old(instances)
                },
                _ => {
                    &&& r is Running
                    &&& *final(self) == *old(self)
                    &&& match old(self).current_tab {
                        Tab::Services => {
                            &&& ListWidget::key_step(*old(services), *key_event, *final(services))
                            &&& *final(instances) == *old(instances)
                        },
                        Tab::Instances => {
                            &&& *final(services) == *old(services)
                            &&& match old(services).selected_spec() {
                                None => *final(instances) == *old(instances),
                                Some(name) => if old(instances).has_key(name@) {
                                    final(instances).entries@ == old(instances).entries@.update(
                                        old(instances).index_of_spec(name@),
                                        (
                                            old(instances).entries@[old(instances).index_of_spec(
                                                name@,
                                            )].0,
                                            final(instances).at_key(name@),
                                        ),
                                    ) && ListWidget::key_step(
                                        old(instances).at_key(name@),
                                        *key_event,
                                        final(instances).at_key(name@),
                                    )
                                } else {
                                    *final(instances) == *old(instances)
                                },
                            }
                        },
                    }
                },
            },
    {
        let k = *key_event;
        match k {
            Key::CtrlQ => State::Exit,
            Key::Left => {
                self.current_tab = Tab::Services;
                State::Running
            },
            Key::Right => {
                self.current_tab = Tab::Instances;
                State::Running
            },
            _ => {
                match self.current_tab {
                    Tab::Services => {
                        services.process_key_event(key_event);
                    },
                    Tab::Instances => {
                        let sel = services.selected();
                        match sel {
                            Some(name) => {
                                let name = name.clone();
                                instances.process_key_at(&name, key_event);
                            },
                            None => {},
                        }
                    },
                }
                State::Running
            },
        }
    }
}

impl Default for App {
    /// Same as [`App::new`].
    fn default() -> (r: Self)
        ensures
            r.current_tab is Services,
    {
        App { current_tab: Tab::Services }
    }
}

} // verus!
