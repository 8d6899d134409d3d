use vstd::prelude::*;

verus! {

/// The window events that the window logic reacts to.
#[derive(Clone, Copy, Debug, PartialEq, Eq, Structural)]
pub enum WindowEvent {
    /// The framebuffer was resized to the given width and height in pixels.
    Resized(i32, i32),
    /// The Escape key went down.
    EscapePressed,
    /// Any other event; it changes nothing.
    Other,
}

/// What the window logic knows of its window: its size in pixels and
/// whether it was asked to close.
pub struct WindowState {
    width: u32,
    height: u32,
    should_close: bool,
}

/// The state as plain values: width, height, and the close request.
pub type WindowModel = (u32, u32, bool);

/// The state after one event.
pub open spec fn next_state(s: WindowModel, e: WindowEvent) -> WindowModel {
    match e {
        WindowEvent::Resized(w, h) => (w as u32, h as u32, s.2),
        WindowEvent::EscapePressed => (s.0, s.1, true),
        WindowEvent::Other => s,
    }
}

/// The state after a run of events, taken in order.
pub open spec fn state_after(s: WindowModel, events: Seq<WindowEvent>) -> WindowModel
    decreases events.len(),
{
    if events.len() == 0 {
        s
    } else {
        next_state(state_after(s, events.drop_last()), events.last())
    }
}

/// The viewport that one event asks for, if any.
pub open spec fn viewport_of(e: WindowEvent) -> Option<(i32, i32)> {
    match e {
        WindowEvent::Resized(w, h) => Some((w, h)),
        _ => None,
    }
}

/// The viewports that a run of events asks for, in order.
pub open spec fn viewports_after(events: Seq<WindowEvent>) -> Seq<(i32, i32)>
    decreases events.len(),
{
    if events.len() == 0 {
        Seq::empty()
    } else {
        let rest = viewports_after(events.drop_last());
        match viewport_of(events.last()) {
            Some(v) => rest.push(v),
            None => rest,
        }
    }
}

/// Taking events in two batches, one after the other, leaves the window in
/// the state that taking them all at once does, and asks for the same
/// viewports in the same order.
pub proof fn lemma_batches_compose(s: WindowModel, first: Seq<WindowEvent>, second: Seq<WindowEvent>)
    ensures
        state_after(s, first + second) == state_after(state_after(s, first), second),
        viewports_after(first + second) == viewports_after(first) + viewports_after(second),
    decreases second.len(),
{
    if second.len() == 0 {
        assert(first + second =~= first);
        assert(viewports_after(first) + viewports_after(second) =~= viewports_after(first));
    } else {
        let joined = first + second;
        assert(joined.drop_last() =~= first + second.drop_last());
        assert(joined.last() == second.last());
        lemma_batches_compose(s, first, second.drop_last());
        let head = viewports_after(first);
        let tail = viewports_after(second.drop_last());
        match viewport_of(second.last()) {
            Some(v) => {
                assert((head + tail).push(v) =~= head + tail.push(v));
            },
            None => {},
        }
    }
}

impl WindowState {
    /// The state as plain values.
    pub closed spec fn model(&self) -> WindowModel {
        (self.width, self.height, self.should_close)
    }

    /// A window of `width` by `height` pixels that is not asked to close.
    pub fn new(width: u32, height: u32) -> (r: WindowState)
        ensures
            r.model() == (width, height, false),
    {
        WindowState { width, height, should_close: false }
    }

    pub fn width(&self) -> (r: u32)
        ensures
            r == self.model().0,
    {
        self.width
    }

    pub fn height(&self) -> (r: u32)
        ensures
            r == self.model().1,
    {
        self.height
    }

    /// Whether the frame loop goes on: the window was not asked to close.
    pub fn is_looping(&self) -> (r: bool)
        ensures
            r == !self.model().2,
    {
        !self.should_close
    }

    /// Asks the window to close; its size stays.
    pub fn close(&mut self)
        ensures
            final(self).model() == (old(self).model().0, old(self).model().1, true),
    {
        self.should_close = true;
    }

    /// Takes the new framebuffer size; the caller sets the viewport to it.
    pub fn handle_window_resize(&mut self, width: i32, height: i32)
        ensures
            final(self).model() == (width as u32, height as u32, old(self).model().2),
    {
        self.width = width as u32;
        self.height = height as u32;
    }

    /// Takes one event and returns the viewport it asks for, if any.
    pub fn handle_event(&mut self, event: WindowEvent) -> (r: Option<(i32, i32)>)
        ensures
            final(self).model() == next_state(old(self).model(), event),
            r == viewport_of(event),
    {
        match event {
            WindowEvent::Resized(w, h) => {
                self.handle_window_resize(w, h);
                Some((w, h))
            },
            WindowEvent::EscapePressed => {
                self.close();
                None
            },
            WindowEvent::Other => None,
        }
    }

    /// Takes the events in order and returns the viewports they ask for, in
    /// the same order.
    pub fn handle_window_event(&mut self, events: &Vec<WindowEvent>) -> (r: Vec<(i32, i32)>)
        ensures
            final(self).model() == state_after(old(self).model(), events@),
            r@ == viewports_after(events@),
    {
        let ghost start = self.model();
        let mut out: Vec<(i32, i32)> = Vec::new();
        let mut i: usize = 0;
        while i < events.len()
            invariant
                i <= events@.len(),
                self.model() == state_after(start, events@.take(i as int)),
                out@ == viewports_after(events@.take(i as int)),
            decreases events@.len() - i,
        {
            assert(events@.take(i as int + 1).drop_last() =~= events@.take(i as int));
            let v = self.handle_event(events[i]);
            match v {
                Some(p) => out.push(p),
                None => {},
            }
            i = i + 1;
        }
        assert(events@.take(events@.len() as int) =~= events@);
        out
    }
}

} // verus!
