//! The engine: the renderer, the list of scene elements and the rule by
//! which the run loop ends.

use vstd::prelude::*;
use crate::element::Element;
use crate::renderer::Renderer;

verus! {

/// A window event, as far as the run loop tells events apart.
#[derive(Clone, Copy, Debug, PartialEq, Eq, Structural)]
pub enum Event {
    /// The user asked for the window to be closed.
    CloseRequested,
    /// Anything else.
    Other,
}

/// The flag by which the run loop goes on or ends.
#[derive(Clone, Copy, Debug, PartialEq, Eq, Structural)]
pub enum ControlFlow {
    Poll,
    Exit,
}

/// The flag after `event` was seen under `flow`: a close request ends the
/// loop, nothing else changes the flag, and nothing leads back from `Exit`.
pub open spec fn flow_after(flow: ControlFlow, event: Event) -> ControlFlow {
    if flow == ControlFlow::Exit || event == Event::CloseRequested {
        ControlFlow::Exit
    } else {
        flow
    }
}

/// `n` is the number of events the loop takes from `events`: up to and
/// with the first close request, or all of them where there is none.
pub open spec fn is_processed_count(events: Seq<Event>, n: int) -> bool {
    &&& 0 <= n <= events.len()
    &&& forall|i: int| 0 <= i < n - 1 ==> events[i] != Event::CloseRequested
    &&& if n == 0 {
        events.len() == 0
    } else if events[n - 1] == Event::CloseRequested {
        true
    } else {
        n == events.len()
    }
}

/// How a run over a list of events ended.
#[derive(Clone, Copy, Debug, PartialEq, Eq, Structural)]
pub struct RunOutcome {
    /// `Exit` if a close request was seen.
    pub flow: ControlFlow,
    /// The number of events taken before the loop ended.
    pub processed: usize,
}

/// The engine owns the renderer and the scene elements, in the order they
/// were added.
#[derive(Clone, Debug)]
pub struct Engine {
    renderer: Renderer,
    elements: Vec<Element>,
}

impl Engine {
    /// The scene elements, in insertion order.
    pub closed spec fn elements_view(&self) -> Seq<Element> {
        self.elements@
    }

    /// The renderer the engine was made around.
    pub closed spec fn renderer_view(&self) -> Renderer {
        self.renderer
    }

    /// An engine around `renderer`, with no scene element.
    pub fn new(renderer: Renderer) -> (engine: Engine)
        ensures
            engine.renderer_view() == renderer,
            engine.elements_view() == Seq::<Element>::empty(),
    {
        Engine { renderer, elements: Vec::new() }
    }

    /// Appends `element` behind the elements already there.
    pub fn add_element(&mut self, element: Element)
        ensures
            final(self).elements_view() == old(self).elements_view().push(element),
            final(self).renderer_view() == old(self).renderer_view(),
    {
        self.elements.push(element);
    }

    /// The scene elements, in insertion order.
    pub fn elements(&self) -> (list: &Vec<Element>)
        ensures
            list@ == self.elements_view(),
    {
        &self.elements
    }

    /// The renderer the engine was made around.
    pub fn renderer(&self) -> (renderer: &Renderer)
        ensures
            *renderer == self.renderer_view(),
    {
        &self.renderer
    }

    /// The flag of the run loop after one event.
    pub fn on_event(flow: ControlFlow, event: Event) -> (next: ControlFlow)
        ensures
            next == flow_after(flow, event),
    {
        match flow {
            ControlFlow::Exit => ControlFlow::Exit,
            ControlFlow::Poll => match event {
                Event::CloseRequested => ControlFlow::Exit,
                Event::Other => ControlFlow::Poll,
            },
        }
    }

    /// Runs the loop over `events`, in order, until a close request was
    /// taken or none is left. No event behind the first close request is
    /// taken.
    pub fn run(self, events: &Vec<Event>) -> (outcome: RunOutcome)
        ensures
            is_processed_count(events@, outcome.processed as int),
            outcome.flow == (if events@.contains(Event::CloseRequested) {
                ControlFlow::Exit
            } else {
                ControlFlow::Poll
            }),
    {
        let mut flow = ControlFlow::Poll;
        let mut i: usize = 0;
        while i < events.len() && flow == ControlFlow::Poll
            invariant
                i <= events@.len(),
                flow == ControlFlow::Poll ==> forall|j: int|
                    0 <= j < i ==> events@[j] != Event::CloseRequested,
                flow == ControlFlow::Exit ==> i > 0 && events@[i - 1] == Event::CloseRequested
                    && forall|j: int| 0 <= j < i - 1 ==> events@[j] != Event::CloseRequested,
                flow == ControlFlow::Exit || flow == ControlFlow::Poll,
            decreases events@.len() - i,
        {
            flow = Engine::on_event(flow, events[i]);
            i += 1;
        }
        RunOutcome { flow, processed: i }
    }
}

/// A close request ends the loop, from whatever flag.
pub proof fn lemma_close_request_exits(flow: ControlFlow)
    ensures
        flow_after(flow, Event::CloseRequested) == ControlFlow::Exit,
{
}

/// Once the flag is `Exit` it stays `Exit`: a second close request, or any
/// other event, has no effect.
pub proof fn lemma_exit_is_final(event: Event)
    ensures
        flow_after(ControlFlow::Exit, event) == ControlFlow::Exit,
        forall|flow: ControlFlow|
            flow_after(#[trigger] flow_after(flow, Event::CloseRequested), event) == flow_after(
                flow,
                Event::CloseRequested,
            ),
{
}

/// Only a close request leads from `Poll` to `Exit`.
pub proof fn lemma_only_close_request_exits(event: Event)
    requires
        flow_after(ControlFlow::Poll, event) == ControlFlow::Exit,
    ensures
        event == Event::CloseRequested,
{
}

/// At most one number of events is the processed count of a list.
pub proof fn lemma_processed_count_unique(events: Seq<Event>, m: int, n: int)
    requires
        is_processed_count(events, m),
        is_processed_count(events, n),
    ensures
        m == n,
{
    if m < n {
        if m > 0 {
            assert(events[m - 1] != Event::CloseRequested);
        }
    }
    if n < m {
        if n > 0 {
            assert(events[n - 1] != Event::CloseRequested);
        }
    }
}

/// The list after one `add_element` for each element of `added`, in order,
/// on an engine that held `start`.
pub open spec fn after_adding(start: Seq<Element>, added: Seq<Element>) -> Seq<Element>
    decreases added.len(),
{
    if added.len() == 0 {
        start
    } else {
        after_adding(start, added.drop_last()).push(added.last())
    }
}

/// Adding is appending: after `n` additions the list is what it was,
/// followed by the `n` elements in the order they were added. Nothing is
/// dropped, merged or moved.
pub proof fn lemma_adding_appends(start: Seq<Element>, added: Seq<Element>)
    ensures
        after_adding(start, added) == start + added,
        after_adding(start, added).len() == start.len() + added.len(),
        forall|i: int| 0 <= i < added.len() ==> after_adding(start, added)[start.len() + i] == added[i],
        forall|i: int| 0 <= i < start.len() ==> after_adding(start, added)[i] == start[i],
    decreases added.len(),
{
    if added.len() == 0 {
        assert(start + added =~= start);
    } else {
        lemma_adding_appends(start, added.drop_last());
        assert(start + added =~= (start + added.drop_last()).push(added.last()));
    }
}

} // verus!
