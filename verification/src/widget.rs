//! The widget layer: a closed set of structured widgets that the dashboard
//! drives through dispatch, and the handle for raw passthrough widgets.

pub mod input;
pub mod tunnel;

use vstd::prelude::*;

use crate::errors::Error;
use crate::events::{Broadcast, Event, TunnelEntry};
use crate::widget::input::{text_next, text_out, text_wf, Text, TextView};
use crate::widget::tunnel::{tunnel_next, tunnel_out, tunnel_wf, Tunnel};

verus! {

/// A handle for a raw passthrough widget. The byte-level work it performs
/// lives outside this library; the event loop only needs a value it can
/// suspend a structured widget behind and hand back on completion.
#[derive(Clone, Copy, PartialEq, Eq, Structural, Debug)]
pub struct RawWidget {
    pub id: u64,
}

/// The closed set of structured widgets the dashboard can drive.
#[derive(PartialEq, Eq, Debug)]
pub enum Widget {
    Text(Text),
    Tunnel(Tunnel),
}

/// The mathematical model of a widget.
pub enum WidgetView {
    Text(TextView),
    Tunnel(Seq<TunnelEntry>),
}

impl View for Widget {
    type V = WidgetView;

    open spec fn view(&self) -> WidgetView {
        match self {
            Widget::Text(t) => WidgetView::Text(t@),
            Widget::Tunnel(t) => WidgetView::Tunnel(t@),
        }
    }
}

/// Well-formedness of a widget, whichever variant it is.
pub open spec fn widget_wf(w: WidgetView) -> bool {
    match w {
        WidgetView::Text(t) => text_wf(t),
        WidgetView::Tunnel(items) => tunnel_wf(items),
    }
}

/// The widget after dispatching one event.
pub open spec fn widget_next(w: WidgetView, ev: Event) -> WidgetView {
    match w {
        WidgetView::Text(t) => WidgetView::Text(text_next(t, ev)),
        WidgetView::Tunnel(items) => WidgetView::Tunnel(tunnel_next(items, ev)),
    }
}

/// The broadcast dispatching one event yields.
pub open spec fn widget_out(w: WidgetView, ev: Event) -> Broadcast {
    match w {
        WidgetView::Text(t) => text_out(t, ev),
        WidgetView::Tunnel(_) => tunnel_out(ev),
    }
}

impl Widget {
    /// Hand one event to the active widget variant.
    pub fn dispatch(&mut self, event: &Event) -> (r: Result<Broadcast, Error>)
        requires
            widget_wf(old(self)@),
        ensures
            widget_wf(final(self)@),
            final(self)@ == widget_next(old(self)@, *event),
            r == Ok::<Broadcast, Error>(widget_out(old(self)@, *event)),
    {
        match self {
            Widget::Text(t) => t.dispatch(event),
            Widget::Tunnel(t) => t.dispatch(event),
        }
    }
}

} // verus!
