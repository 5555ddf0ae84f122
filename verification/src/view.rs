//! Registry of widget views: which widgets carry built-in input
//! behaviour (an internal gesture handler, an attach step).
use vstd::prelude::*;

use crate::event::GestureCallback;

verus! {

/// Built-in attach steps run by `attach_handlers_for`.
#[derive(Clone, Copy, Debug, PartialEq, Eq, Structural)]
pub enum ViewAttach {
    /// Makes text inputs focusable and gives them the text key handler.
    TextInput,
}

/// A registered widget view.
#[derive(Clone, Copy, Debug)]
pub struct WidgetView {
    pub name: &'static str,
    pub priority: u8,
    /// Marker component (tag) an entity must carry for this view to apply;
    /// `None` applies to every entity.
    pub filter: Option<u32>,
    pub internal: Option<GestureCallback>,
    pub attach: Option<ViewAttach>,
}

impl WidgetView {
    pub fn new(name: &'static str, priority: u8) -> (v: WidgetView)
        ensures
            v.name == name,
            v.priority == priority,
            v.filter is None,
            v.internal is None,
            v.attach is None,
    {
        WidgetView { name, priority, filter: None, internal: None, attach: None }
    }

    pub fn with_filter(self, tag: u32) -> (v: WidgetView)
        ensures
            v == (WidgetView { filter: Some(tag), ..self }),
    {
        WidgetView { filter: Some(tag), ..self }
    }

    pub fn with_internal_gesture(self, cb: GestureCallback) -> (v: WidgetView)
        ensures
            v == (WidgetView { internal: Some(cb), ..self }),
    {
        WidgetView { internal: Some(cb), ..self }
    }

    pub fn with_auto_attach(self, a: ViewAttach) -> (v: WidgetView)
        ensures
            v == (WidgetView { attach: Some(a), ..self }),
    {
        WidgetView { attach: Some(a), ..self }
    }

    pub fn internal_gesture(&self) -> (r: Option<GestureCallback>)
        ensures
            r == self.internal,
    {
        self.internal
    }

    pub fn component_filter(&self) -> (r: Option<u32>)
        ensures
            r == self.filter,
    {
        self.filter
    }

    pub fn auto_attach(&self) -> (r: Option<ViewAttach>)
        ensures
            r == self.attach,
    {
        self.attach
    }
}

/// The views known to the app, in registration order.
pub struct ViewRegistry {
    pub views: Vec<WidgetView>,
}

impl ViewRegistry {
    pub fn new() -> (r: ViewRegistry)
        ensures
            r.views@.len() == 0,
    {
        ViewRegistry { views: Vec::new() }
    }

    pub fn insert(&mut self, v: WidgetView)
        ensures
            final(self).views@ == old(self).views@.push(v),
    {
        self.views.push(v);
    }

    pub fn len(&self) -> (n: usize)
        ensures
            n == self.views@.len(),
    {
        self.views.len()
    }
}

} // verus!
