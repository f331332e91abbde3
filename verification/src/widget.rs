//! The capability every pane of the dashboard offers: a title, a one-line
//! control hint, and a reaction to key input.
//!
//! Each implementor pins its behaviour down through the spec hooks: `title`
//! and `controls` return the text given by `title_spec` / `controls_spec`,
//! and `process_key_event` transforms the widget exactly as `key_step` says,
//! preserving the widget's invariant `widget_wf`.

use vstd::prelude::*;
use crate::key::Key;

verus! {

pub trait DiscoveryWidget: Sized {
    /// The pane's title text.
    spec fn title_spec(&self) -> Seq<char>;

    /// The pane's one-line control hint.
    spec fn controls_spec(&self) -> Seq<char>;

    /// The widget's internal invariant.
    spec fn widget_wf(&self) -> bool;

    /// How one key press transforms the widget.
    spec fn key_step(pre: Self, key: Key, post: Self) -> bool;

    fn title(&self) -> (r: String)
        ensures
            r@ == self.title_spec(),
    ;

    fn controls(&self) -> (r: String)
        ensures
            r@ == self.controls_spec(),
    ;

    fn process_key_event(&mut self, key_event: &Key)
        requires
            old(self).widget_wf(),
        ensures
            final(self).widget_wf(),
            Self::key_step(*old(self), *key_event, *final(self)),
    ;
}

} // verus!
