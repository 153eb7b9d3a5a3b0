use workflow::slider::{DefaultTickHandler, Position, Range, Slider, SliderAction, SliderState};

const RANGE: Range = Range { min: 0, max: 100 };

#[test]
fn position_new_range_clamp() {
    let range = Range { min: 5, max: 10 };
    let pos = Position::new(0, range);
    assert_eq!(pos, Position { value: 5, range });

    let pos = Position::new(15, range);
    assert_eq!(pos, Position { value: 10, range });

    let pos = Position::new(100, range);
    assert_eq!(pos, Position { value: 10, range });
}

/// Stopping a slider twice stops it just once.
#[test]
fn test_slider_stop() {
    let mut slider = Slider::new(RANGE);
    slider.act(SliderAction::Goto(Position { value: 50, range: RANGE }));

    for _ in 0..10 {
        slider.tick();
    }

    slider.act(SliderAction::Stop);
    assert_eq!(slider.state, SliderState::IdleAt { position: Position { value: 10, range: RANGE } });
    slider.act(SliderAction::Stop);
    assert_eq!(slider.state, SliderState::IdleAt { position: Position { value: 10, range: RANGE } });
}

#[test]
fn test_slider() {
    let mut slider = Slider::new(RANGE);

    assert_eq!(slider.position(), Position { value: 0, range: RANGE });
    assert_eq!(slider.destination(), None);

    slider.act(SliderAction::Goto(Position::new(50, RANGE)));

    slider.tick().tick().tick();

    assert_eq!(slider.position(), Position { value: 3, range: RANGE });
    assert_eq!(slider.destination(), Some(Position { value: 50, range: RANGE }));

    slider.act(SliderAction::Stop);
    assert_eq!(slider.position(), Position { value: 3, range: RANGE });
    assert_eq!(slider.destination(), None);
}

#[test]
fn states_and_actions_work() {
    assert_eq!(
        Slider::new(RANGE).state,
        SliderState::IdleAt { position: Position { value: 0, range: RANGE } }
    );
    assert_eq!(
        Slider::new(RANGE).act(SliderAction::Stop).state,
        SliderState::IdleAt { position: Position { value: 0, range: RANGE } }
    );
    assert_eq!(
        Slider::new(RANGE).act(SliderAction::Goto(Position { value: 50, range: RANGE })),
        &Slider {
            state: SliderState::MoveTo {
                from: Position { value: 0, range: RANGE },
                current: Position { value: 0, range: RANGE },
                to: Position { value: 50, range: RANGE },
            },
            range: RANGE,
            tick_handler: DefaultTickHandler,
        }
    );

    let mut slider = Slider::new(RANGE);
    slider
        .act(SliderAction::Goto(Position { value: 50, range: RANGE }))
        .act(SliderAction::Goto(Position { value: 100, range: RANGE }));

    for _ in 0..150 {
        slider.tick();
    }
    assert_eq!(
        slider.act(SliderAction::Stop).state,
        SliderState::IdleAt { position: Position { value: 100, range: RANGE } }
    );
}

#[test]
fn position_works() {
    let mut slider = Slider::new(RANGE);

    assert_eq!(Slider::new(RANGE).position(), Position { value: 0, range: RANGE });
    assert_eq!(
        Slider::new(RANGE).act(SliderAction::Goto(Position::new(100, RANGE))).position(),
        Position { value: 0, range: RANGE }
    );

    slider
        .act(SliderAction::Goto(Position::new(10, RANGE)))
        .act(SliderAction::Stop)
        .act(SliderAction::Goto(Position::new(20, RANGE)));
    for _ in 0..100 {
        slider.tick();
    }

    assert_eq!(slider.act(SliderAction::Stop).position(), Position { value: 20, range: RANGE });
}

#[test]
fn destination_works() {
    assert_eq!(Slider::new(RANGE).destination(), None);
    assert_eq!(
        Slider::new(RANGE)
            .act(SliderAction::Goto(Position::new(10, RANGE)))
            .act(SliderAction::Stop)
            .destination(),
        None
    );
    assert_eq!(
        Slider::new(RANGE)
            .act(SliderAction::Goto(Position::new(10, RANGE)))
            .act(SliderAction::Goto(Position::new(20, RANGE)))
            .destination(),
        Some(Position { value: 20, range: RANGE })
    );
}

#[test]
fn act_works() {
    let mut slider = Slider::new(RANGE);

    slider
        .act(SliderAction::Goto(Position::new(10, RANGE)))
        .act(SliderAction::Goto(Position::new(20, RANGE)))
        .act(SliderAction::Goto(Position::new(30, RANGE)));

    for _ in 0..60 {
        slider.tick();
    }

    assert_eq!(
        slider.act(SliderAction::Stop).state,
        SliderState::IdleAt { position: Position { value: 30, range: RANGE } }
    );
}

#[test]
fn new_works() {
    assert_eq!(
        Slider::new(RANGE).state,
        SliderState::IdleAt { position: Position { value: 0, range: RANGE } }
    );
}

#[test]
fn new_slider_starts_at_range_minimum_above_zero() {
    let range = Range { min: 5, max: 10 };
    assert_eq!(
        Slider::new(range).state,
        SliderState::IdleAt { position: Position { value: 5, range } }
    );
}

#[test]
fn tick_moves_down_towards_a_lower_destination() {
    let mut slider = Slider::new(RANGE);
    slider.act(SliderAction::Goto(Position::new(5, RANGE)));
    for _ in 0..6 {
        slider.tick();
    }
    assert_eq!(slider.state, SliderState::IdleAt { position: Position { value: 5, range: RANGE } });
    slider.act(SliderAction::Goto(Position::new(2, RANGE)));
    slider.tick();
    assert_eq!(slider.position(), Position { value: 4, range: RANGE });
    assert_eq!(slider.destination(), Some(Position { value: 2, range: RANGE }));
}

#[test]
fn idle_slider_does_not_move_on_tick() {
    let mut slider = Slider::new(RANGE);
    slider.tick().tick();
    assert_eq!(slider.state, SliderState::IdleAt { position: Position { value: 0, range: RANGE } });
}

#[test]
fn default_tick_handler_arrives_at_destination() {
    let at = Position { value: 7, range: RANGE };
    let state = SliderState::MoveTo { from: at, current: at, to: at };
    assert_eq!(Slider::default_tick_handler(state), SliderState::IdleAt { position: at });
}
