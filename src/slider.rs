//! The slider: a state machine that is either idle at a position or moving
//! from one position towards another, one step per tick.
use vstd::prelude::*;

verus! {

/// The smallest and the largest value a slider position may take.
#[derive(Debug, Clone, Copy, PartialEq, Eq, Structural)]
pub struct Range {
    pub min: u32,
    pub max: u32,
}

/// A value of a range. Built with `Position::new`, it lies within the range.
#[derive(Debug, Clone, Copy, PartialEq, Eq, Structural)]
pub struct Position {
    pub value: u32,
    pub range: Range,
}

/// `value` moved into the range: the maximum above it, the minimum below it.
pub open spec fn clamp(value: int, range: Range) -> u32 {
    if value > range.max {
        range.max
    } else if value < range.min {
        range.min
    } else {
        value as u32
    }
}

impl Position {
    /// Creates a position; a value outside the range becomes the nearest
    /// end of the range.
    pub fn new(value: u32, range: Range) -> (r: Position)
        ensures
            r.value == clamp(value as int, range),
            r.range == range,
    {
        if value > range.max {
            return Position { value: range.max, range };
        } else if value < range.min {
            return Position { value: range.min, range };
        }
        Position { value, range }
    }

    /// The position `value` further up, kept within the range.
    fn add(self, value: u32) -> (r: Position)
        requires
            self.value + value <= u32::MAX,
        ensures
            r == (Position { value: clamp(self.value + value, self.range), range: self.range }),
    {
        Position::new(self.value + value, self.range)
    }

    /// The position `value` further down, kept within the range.
    fn sub(self, value: u32) -> (r: Position)
        requires
            self.value >= value,
        ensures
            r == (Position { value: clamp(self.value - value, self.range), range: self.range }),
    {
        Position::new(self.value - value, self.range)
    }
}

/// Positions are ordered by their values alone; the range is not compared.
impl PartialOrd for Position {
    fn partial_cmp(&self, other: &Position) -> (r: Option<core::cmp::Ordering>) {
        if self.value < other.value {
            Some(core::cmp::Ordering::Less)
        } else if self.value > other.value {
            Some(core::cmp::Ordering::Greater)
        } else {
            Some(core::cmp::Ordering::Equal)
        }
    }
}

impl vstd::std_specs::cmp::PartialOrdSpecImpl for Position {
    open spec fn obeys_partial_cmp_spec() -> bool {
        true
    }

    open spec fn partial_cmp_spec(&self, other: &Position) -> Option<core::cmp::Ordering> {
        if self.value < other.value {
            Some(core::cmp::Ordering::Less)
        } else if self.value > other.value {
            Some(core::cmp::Ordering::Greater)
        } else {
            Some(core::cmp::Ordering::Equal)
        }
    }
}

/// What can be asked of a slider.
#[derive(Debug, Clone, Copy, PartialEq, Eq, Structural)]
pub enum SliderAction {
    /// Stop where the slider is.
    Stop,
    /// Move to a position.
    Goto(Position),
}

/// The state of a slider.
#[derive(Debug, Clone, Copy, PartialEq, Eq, Structural)]
pub enum SliderState {
    /// Idle at a position.
    IdleAt { position: Position },
    /// Moving from `from` towards `to`, now at `current`.
    MoveTo { from: Position, current: Position, to: Position },
}

/// One tick of the default handler: an idle slider stays; a moving slider
/// that has arrived becomes idle at its destination; otherwise it moves one
/// step towards it.
pub open spec fn step(state: SliderState) -> SliderState {
    match state {
        SliderState::IdleAt { .. } => state,
        SliderState::MoveTo { from, current, to } => if current.value == to.value {
            SliderState::IdleAt { position: to }
        } else if current.value < to.value {
            SliderState::MoveTo {
                from,
                current: Position { value: clamp(current.value + 1, current.range), range: current.range },
                to,
            }
        } else {
            SliderState::MoveTo {
                from,
                current: Position { value: clamp(current.value - 1, current.range), range: current.range },
                to,
            }
        },
    }
}

/// Where a slider in `state` is.
pub open spec fn position_of(state: SliderState) -> Position {
    match state {
        SliderState::IdleAt { position } => position,
        SliderState::MoveTo { current, .. } => current,
    }
}

/// The state a slider in `state` takes on `action`.
pub open spec fn after_action(state: SliderState, action: SliderAction) -> SliderState {
    match action {
        SliderAction::Stop => SliderState::IdleAt { position: position_of(state) },
        SliderAction::Goto(x) => SliderState::MoveTo {
            from: position_of(state),
            current: position_of(state),
            to: x,
        },
    }
}

/// Performs a tick: maps the state of a slider to its next state.
pub trait TickHandler {
    /// The state that follows `state`.
    spec fn next(&self, state: SliderState) -> SliderState;

    /// Computes the state that follows `state`.
    fn handle(&self, state: SliderState) -> (r: SliderState)
        ensures
            r == self.next(state),
    ;
}

/// The tick handler a new slider starts with: one `step` per tick.
#[derive(Debug, Clone, Copy, PartialEq, Eq, Structural)]
pub struct DefaultTickHandler;

impl TickHandler for DefaultTickHandler {
    open spec fn next(&self, state: SliderState) -> SliderState {
        step(state)
    }

    fn handle(&self, state: SliderState) -> (r: SliderState) {
        Slider::default_tick_handler(state)
    }
}

/// A slider: its state, its range and the handler that performs a tick.
#[derive(Debug, Clone, Copy, PartialEq)]
pub struct Slider<H = DefaultTickHandler> {
    pub state: SliderState,
    pub range: Range,
    pub tick_handler: H,
}

impl Slider<DefaultTickHandler> {
    /// A new slider, idle at position 0 of its range (the range's minimum
    /// when 0 lies below it), with the default tick handler.
    pub fn new(range: Range) -> (r: Slider<DefaultTickHandler>)
        ensures
            r.state == (SliderState::IdleAt { position: Position { value: clamp(0, range), range } }),
            r.range == range,
    {
        Slider {
            state: SliderState::IdleAt { position: Position::new(0, range) },
            range,
            tick_handler: DefaultTickHandler,
        }
    }

    /// One step of a move from `from` through `current` towards `to`.
    fn tick_(from: Position, current: Position, to: Position) -> (r: SliderState)
        ensures
            r == step(SliderState::MoveTo { from, current, to }),
    {
        let pos_delta: u32 = 1;
        if current.value == to.value {
            return SliderState::IdleAt { position: to };
        }
        let next: Position;
        if current.value < to.value {
            next = current.add(pos_delta);
        } else {
            next = current.sub(pos_delta);
        }
        SliderState::MoveTo { from, current: next, to }
    }

    /// The default tick handler: one `step`.
    pub fn default_tick_handler(state: SliderState) -> (r: SliderState)
        ensures
            r == step(state),
    {
        match state {
            SliderState::IdleAt { .. } => state,
            SliderState::MoveTo { from, current, to } => Slider::tick_(from, current, to),
        }
    }
}

impl<H: TickHandler> Slider<H> {
    /// Where the slider is: its position when idle, its current position
    /// when moving.
    pub fn position(&self) -> (r: Position)
        ensures
            r == position_of(self.state),
    {
        match &self.state {
            SliderState::IdleAt { position } => *position,
            SliderState::MoveTo { current, .. } => *current,
        }
    }

    /// Where the slider is going: `None` when idle.
    pub fn destination(&self) -> (r: Option<Position>)
        ensures
            r == (match self.state {
                SliderState::IdleAt { .. } => None,
                SliderState::MoveTo { to, .. } => Some(to),
            }),
    {
        match &self.state {
            SliderState::IdleAt { .. } => None,
            SliderState::MoveTo { to, .. } => Some(*to),
        }
    }

    /// Performs an action: `Stop` makes the slider idle where it is, `Goto`
    /// starts a move from where it is.
    pub fn act(&mut self, action: SliderAction) -> (r: &mut Self)
        ensures
            r.state == after_action(old(self).state, action),
            r.range == old(self).range,
            r.tick_handler == old(self).tick_handler,
            *final(self) == *final(r),
    {
        let here = self.position();
        self.state = match action {
            SliderAction::Stop => SliderState::IdleAt { position: here },
            SliderAction::Goto(x) => SliderState::MoveTo { from: here, current: here, to: x },
        };
        self
    }

    /// The same slider with another tick handler.
    pub fn set_tick_handler<G: TickHandler>(self, tick_handler: G) -> (r: Slider<G>)
        ensures
            r.state == self.state,
            r.range == self.range,
            r.tick_handler == tick_handler,
    {
        Slider { state: self.state, range: self.range, tick_handler }
    }

    /// Advances the slider by one tick through its tick handler.
    pub fn tick(&mut self) -> (r: &mut Self)
        ensures
            r.state == old(self).tick_handler.next(old(self).state),
            r.range == old(self).range,
            r.tick_handler == old(self).tick_handler,
            *final(self) == *final(r),
    {
        let state = self.state;
        self.state = self.tick_handler.handle(state);
        self
    }
}

/// Something that can be flipped between two states.
pub trait Toggle {
    /// Flips the state.
    fn toggle(&mut self);
}

/// Something that is on or off.
pub trait Switch {
    /// Whether it is on.
    fn is_on(&self) -> bool;

    /// Whether it is off: the opposite of `is_on`.
    fn is_off(&self) -> bool {
        !self.is_on()
    }

    /// Switches it on.
    fn on(&mut self);

    /// Switches it off.
    fn off(&mut self);
}

} // verus!
