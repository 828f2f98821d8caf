//! Window events as the loop sees them, a cache that passes them through a
//! handler, and the blackboard of request flags that the loop reads.
use vstd::prelude::*;

verus! {

/// A window-system event, reduced to what the handlers tell apart.
#[derive(Clone, Copy, Debug, PartialEq, Eq, Structural)]
pub enum InputEvent {
    /// The user asked to close the window.
    CloseRequested,
    /// A keyboard event; `escape` tells whether its key is Escape.
    Keyboard { escape: bool },
    /// The window was resized to this many physical pixels.
    Resized { width: u32, height: u32 },
    /// Any other event of the window.
    OtherWindowEvent,
    /// An event that does not belong to a window (a device event, for one).
    NotWindowEvent,
}

/// Something that reacts to incoming events and passes each on unchanged,
/// changed, or not at all.
pub trait InputHandler: Sized {
    /// The handler's state after handling `event`, and the event it passes on.
    spec fn handled(self, event: InputEvent) -> (Self, Option<InputEvent>);

    /// Handles one event and returns what is passed on.
    fn handle_event(&mut self, event: InputEvent) -> (r: Option<InputEvent>)
        ensures
            (*final(self), r) == old(self).handled(event),
    ;
}

/// Runs `events` in order through a handler in state `h`: its final state,
/// and the events it passed on, in order.
pub open spec fn run_handler<R: InputHandler>(h: R, events: Seq<InputEvent>) -> (R, Seq<InputEvent>)
    decreases events.len(),
{
    if events.len() == 0 {
        (h, Seq::empty())
    } else {
        let (h1, passed) = h.handled(events[0]);
        let (h2, rest) = run_handler(h1, events.drop_first());
        (
            h2,
            match passed {
                Some(e) => seq![e] + rest,
                None => rest,
            },
        )
    }
}

/// A cache of incoming events, to be passed to a handler in one go.
#[derive(Debug)]
pub struct RootEventHandler {
    pub events: Vec<InputEvent>,
}

impl Default for RootEventHandler {
    fn default() -> (r: Self)
        ensures
            r.events@.len() == 0,
    {
        RootEventHandler { events: Vec::new() }
    }
}

impl RootEventHandler {
    /// Passes each cached event, in order, to `receiver`; what it passes on
    /// becomes the new cache.
    pub fn sync<R: InputHandler>(&mut self, receiver: &mut R)
        ensures
            (*final(receiver), final(self).events@) == run_handler(*old(receiver), old(self).events@),
    {
        let mut events: Vec<InputEvent> = Vec::new();
        std::mem::swap(&mut events, &mut self.events);
        let n = events.len();
        let mut kept: Vec<InputEvent> = Vec::new();
        let mut i: usize = 0;
        assert(events@.subrange(0, n as int) =~= events@);
        while i < n
            invariant
                n == events@.len(),
                i <= n,
                events@ == old(self).events@,
                run_handler(*old(receiver), events@) == ({
                    let (h, rest) = run_handler(*receiver, events@.subrange(i as int, n as int));
                    (h, kept@ + rest)
                }),
            decreases n - i,
        {
            let ghost before = *receiver;
            let ghost tail = events@.subrange(i as int, n as int);
            assert(tail[0] == events@[i as int]);
            assert(tail.drop_first() =~= events@.subrange(i as int + 1, n as int));
            let e = events[i];
            let passed = receiver.handle_event(e);
            match passed {
                Some(p) => {
                    let ghost kept_before = kept@;
                    kept.push(p);
                    proof {
                        let (h, rest) = run_handler(*receiver, events@.subrange(i as int + 1, n as int));
                        assert(kept_before + (seq![p] + rest) =~= kept@ + rest);
                    }
                },
                None => {},
            }
            i = i + 1;
        }
        assert(events@.subrange(n as int, n as int) =~= Seq::<InputEvent>::empty());
        assert(kept@ + Seq::<InputEvent>::empty() =~= kept@);
        self.events = kept;
    }

    /// Empties the cache.
    pub fn reset(&mut self)
        ensures
            final(self).events@.len() == 0,
    {
        self.events.clear();
    }

    /// Stores an incoming event at the end of the cache.
    pub fn handle_event(&mut self, event: InputEvent)
        ensures
            final(self).events@ == old(self).events@.push(event),
    {
        self.events.push(event);
    }
}

/// The request flags that the loop reads once per iteration.
#[derive(Clone, Copy, Debug, PartialEq, Eq, Structural)]
pub struct Blackboard {
    pub should_quit: bool,
    pub should_rebuild_swapchain: bool,
}

impl Default for Blackboard {
    fn default() -> (r: Self)
        ensures
            !r.should_quit,
            !r.should_rebuild_swapchain,
    {
        Blackboard { should_quit: false, should_rebuild_swapchain: false }
    }
}

impl Blackboard {
    /// Lowers both flags.
    pub fn reset(&mut self)
        ensures
            !final(self).should_quit,
            !final(self).should_rebuild_swapchain,
    {
        self.should_quit = false;
        self.should_rebuild_swapchain = false;
    }
}

impl InputHandler for Blackboard {
    /// A close request or the Escape key raises the quit flag, a resize the
    /// rebuild flag; every event is consumed.
    open spec fn handled(self, event: InputEvent) -> (Blackboard, Option<InputEvent>) {
        match event {
            InputEvent::CloseRequested => (Blackboard { should_quit: true, ..self }, None),
            InputEvent::Keyboard { escape } => if escape {
                (Blackboard { should_quit: true, ..self }, None)
            } else {
                (self, None)
            },
            InputEvent::Resized { .. } => (Blackboard { should_rebuild_swapchain: true, ..self }, None),
            _ => (self, None),
        }
    }

    fn handle_event(&mut self, event: InputEvent) -> (r: Option<InputEvent>) {
        match event {
            InputEvent::CloseRequested => self.should_quit = true,
            InputEvent::Keyboard { escape } => if escape {
                self.should_quit = true;
            },
            InputEvent::Resized { .. } => self.should_rebuild_swapchain = true,
            _ => {},
        }
        None
    }
}

} // verus!
