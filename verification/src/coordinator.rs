//! The renderer's side of the handoff, and the handoff as a whole.
//!
//! Requests reach the renderer through a slot that holds one token address;
//! images leave it through a slot that holds one image. The renderer decides
//! tick by tick what to do from what it finds in the two slots; the code
//! that owns the slots and the drawing surface carries the decisions out.

use vstd::prelude::*;

verus! {

/// What the renderer found in the request slot at the start of a tick.
#[derive(Debug)]
pub enum Polled {
    /// The renderer did not look.
    NotPolled,
    /// The slot was empty.
    Empty,
    /// The slot held a request, which the renderer took.
    Request(String),
    /// The other end of the slot is gone.
    Closed,
}

/// What the renderer is doing.
#[derive(Debug)]
pub enum RendererState {
    /// Waiting for a request.
    Idle,
    /// The scene of this token is built; its image is still owed.
    Rendering(String),
    /// A slot was found closed. Nothing more is done.
    Halted,
}

/// What the renderer does in a tick.
#[derive(Debug)]
pub enum RendererAction {
    /// Nothing.
    Rest,
    /// Discard the scene and build the scene of this token.
    Rebuild(String),
    /// The image slot is still full: capture nothing, try again next tick.
    Skip,
    /// Rasterize the scene of this token, lay the overlays over it, encode it
    /// and put the image in the image slot.
    Capture(String),
    /// Stop: a slot is closed, or the renderer was handed a request that it
    /// had not asked for.
    Halt,
}

/// The renderer's rule for one tick.
///
/// Idle, it takes a request if there is one and builds the scene. With a
/// scene built, it captures the image as soon as the image slot is empty and
/// is idle again; while the slot is full it waits. It halts on a closed slot,
/// and on a request polled while an image is still owed, which would be lost.
pub open spec fn ticked(state: RendererState, polled: Polled, response_full: bool) -> (
    RendererState,
    RendererAction,
) {
    match state {
        RendererState::Halted => (RendererState::Halted, RendererAction::Halt),
        RendererState::Idle => match polled {
            Polled::NotPolled => (RendererState::Idle, RendererAction::Rest),
            Polled::Empty => (RendererState::Idle, RendererAction::Rest),
            Polled::Request(token) => (
                RendererState::Rendering(token),
                RendererAction::Rebuild(token),
            ),
            Polled::Closed => (RendererState::Halted, RendererAction::Halt),
        },
        RendererState::Rendering(token) => match polled {
            Polled::NotPolled => if response_full {
                (RendererState::Rendering(token), RendererAction::Skip)
            } else {
                (RendererState::Idle, RendererAction::Capture(token))
            },
            _ => (RendererState::Halted, RendererAction::Halt),
        },
    }
}

impl RendererState {
    /// A renderer that has nothing to do yet.
    pub fn new() -> (state: Self)
        ensures
            state == RendererState::Idle,
    {
        RendererState::Idle
    }

    /// Whether the renderer looks into the request slot this tick: only when
    /// it is idle, so that no request is taken before the last image is out.
    pub fn wants_request(&self) -> (wanted: bool)
        ensures
            wanted == (*self is Idle),
    {
        match self {
            RendererState::Idle => true,
            _ => false,
        }
    }

    /// One tick: the state afterwards and what to do, by the renderer's rule.
    pub fn tick(self, polled: Polled, response_full: bool) -> (next: (
        RendererState,
        RendererAction,
    ))
        ensures
            next == ticked(self, polled, response_full),
    {
        match self {
            RendererState::Halted => (RendererState::Halted, RendererAction::Halt),
            RendererState::Idle => match polled {
                Polled::NotPolled => (RendererState::Idle, RendererAction::Rest),
                Polled::Empty => (RendererState::Idle, RendererAction::Rest),
                Polled::Request(token) => {
                    let copy = token.clone();
                    (RendererState::Rendering(token), RendererAction::Rebuild(copy))
                },
                Polled::Closed => (RendererState::Halted, RendererAction::Halt),
            },
            RendererState::Rendering(token) => match polled {
                Polled::NotPolled => if response_full {
                    (RendererState::Rendering(token), RendererAction::Skip)
                } else {
                    (RendererState::Idle, RendererAction::Capture(token))
                },
                _ => (RendererState::Halted, RendererAction::Halt),
            },
        }
    }

    /// The image slot turned out closed while an image was put in: the
    /// renderer halts.
    pub fn push_failed(self) -> (state: Self)
        ensures
            state == RendererState::Halted,
    {
        RendererState::Halted
    }
}

/// The handoff at one moment: the two slots, the renderer between them, and
/// the record of what went in and what came out.
///
/// An image is stood for by the token it shows.
pub struct Handoff {
    /// Every request that the request slot accepted, oldest first.
    pub sent: Seq<String>,
    /// The token of every image that was taken from the image slot, oldest
    /// first.
    pub received: Seq<String>,
    pub request_slot: Option<String>,
    pub renderer: RendererState,
    pub response_slot: Option<String>,
}

/// The tokens on their way through the handoff, oldest first: the image in
/// the image slot, the scene in the renderer, the request in the request
/// slot.
pub open spec fn in_flight(h: Handoff) -> Seq<String> {
    let image = match h.response_slot {
        Some(token) => seq![token],
        None => Seq::empty(),
    };
    let scene = match h.renderer {
        RendererState::Rendering(token) => seq![token],
        _ => Seq::empty(),
    };
    let request = match h.request_slot {
        Some(token) => seq![token],
        None => Seq::empty(),
    };
    image + scene + request
}

impl Handoff {
    /// The handoff before anything was sent.
    pub open spec fn start() -> Handoff {
        Handoff {
            sent: Seq::empty(),
            received: Seq::empty(),
            request_slot: None,
            renderer: RendererState::Idle,
            response_slot: None,
        }
    }

    /// Nothing was dropped, overwritten or reordered: the requests sent are
    /// the images received, followed by what is on its way.
    pub open spec fn conserved(self) -> bool {
        !(self.renderer is Halted) && self.sent == self.received + in_flight(self)
    }

    /// Whether a send would go through now. A send on a full request slot
    /// blocks.
    pub open spec fn can_send(self) -> bool {
        self.request_slot is None
    }

    /// The handoff after the pipeline has sent `token`.
    pub open spec fn send(self, token: String) -> Handoff {
        Handoff { sent: self.sent.push(token), request_slot: Some(token), ..self }
    }

    /// Whether a receive would return now. A receive on an empty image slot
    /// blocks.
    pub open spec fn can_receive(self) -> bool {
        self.response_slot is Some
    }

    /// The handoff after the pipeline has taken the image.
    pub open spec fn receive(self) -> Handoff {
        Handoff {
            received: self.received.push(self.response_slot->0),
            response_slot: None,
            ..self
        }
    }

    /// What the renderer finds when it starts a tick: the request slot's
    /// content if it looks, which it does only when idle.
    pub open spec fn polled(self) -> Polled {
        if !(self.renderer is Idle) {
            Polled::NotPolled
        } else {
            match self.request_slot {
                Some(token) => Polled::Request(token),
                None => Polled::Empty,
            }
        }
    }

    /// The handoff after one tick of the renderer, carried out as decided:
    /// a polled request leaves the request slot, a captured image enters the
    /// image slot.
    pub open spec fn tick(self) -> Handoff {
        let next = ticked(self.renderer, self.polled(), self.response_slot is Some);
        Handoff {
            request_slot: if self.polled() is Request {
                None
            } else {
                self.request_slot
            },
            renderer: next.0,
            response_slot: match next.1 {
                RendererAction::Capture(token) => Some(token),
                _ => self.response_slot,
            },
            ..self
        }
    }
}

/// The empty handoff conserves its (no) requests.
pub proof fn lemma_start_conserved()
    ensures
        Handoff::start().conserved(),
        in_flight(Handoff::start()).len() == 0,
{
    assert(in_flight(Handoff::start()) =~= Seq::empty());
    assert(Handoff::start().sent =~= Handoff::start().received + in_flight(Handoff::start()));
}

/// A send that goes through keeps every request: the new one is the last in
/// flight.
pub proof fn lemma_send_conserves(h: Handoff, token: String)
    requires
        h.conserved(),
        h.can_send(),
    ensures
        h.send(token).conserved(),
        in_flight(h.send(token)) == in_flight(h).push(token),
{
    assert(in_flight(h.send(token)) =~= in_flight(h).push(token));
    assert(h.send(token).sent =~= h.send(token).received + in_flight(h.send(token)));
}

/// A tick of the renderer keeps every request in its place in the order, and
/// an image never enters a full image slot.
pub proof fn lemma_tick_conserves(h: Handoff)
    requires
        h.conserved(),
    ensures
        h.tick().conserved(),
        in_flight(h.tick()) == in_flight(h),
        h.response_slot is Some ==> h.tick().response_slot == h.response_slot,
        h.tick().sent == h.sent,
        h.tick().received == h.received,
{
    assert(in_flight(h.tick()) =~= in_flight(h));
}

/// A receive returns the image of the oldest request not yet answered.
pub proof fn lemma_receive_conserves(h: Handoff)
    requires
        h.conserved(),
        h.can_receive(),
    ensures
        h.receive().conserved(),
        h.sent[h.received.len() as int] == h.response_slot->0,
        in_flight(h.receive()) == in_flight(h).drop_first(),
{
    assert(in_flight(h)[0] == h.response_slot->0);
    assert(in_flight(h.receive()) =~= in_flight(h).drop_first());
    assert(h.receive().sent =~= h.receive().received + in_flight(h.receive()));
}

/// While a request is on its way and its image has not been taken, a sender
/// that sends one request at a time has nothing in the handoff but that
/// request: one slot or the renderer holds it, and the other places are
/// empty.
pub proof fn lemma_one_at_a_time(h: Handoff)
    requires
        h.conserved(),
        h.sent.len() == h.received.len() + 1,
    ensures
        in_flight(h) == seq![h.sent.last()],
        h.request_slot is Some ==> h.response_slot is None && !(h.renderer is Rendering),
        h.response_slot is Some ==> h.request_slot is None && !(h.renderer is Rendering),
{
    assert(in_flight(h).len() == 1);
    assert(in_flight(h) =~= seq![h.sent.last()]);
}

} // verus!
