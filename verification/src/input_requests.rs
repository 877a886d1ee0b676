use vstd::prelude::*;
use crate::events::NavRequest;
use crate::input::{
    apply_mappings_spec, update_input_manager, ActionFlags, ActionType, GamepadState,
    InputMapping, KeyCode, UiNavInputManager,
};
use crate::resources::{Stopwatch, UiNavSettings, UiNavState};
use crate::seq_util::{lemma_take_all, lemma_take_step};
use crate::utils::{f32_lerp, lerp_spec};

verus! {

/// Whether a key went down or came up.
#[derive(Debug, Clone, Copy, PartialEq, Eq, Hash, Structural)]
pub enum ButtonState {
    Pressed,
    Released,
}

/// A key going down, coming up, or repeating.
#[derive(Debug, Clone, Copy, PartialEq, Eq, Structural)]
pub struct KeyboardInput {
    pub key_code: KeyCode,
    pub state: ButtonState,
}

/// The time between two moves of a direction that has been held for
/// `hold` microseconds: the slow pace at first, the fast pace once the
/// acceleration time is over, and in between the pace that lies as far
/// between the two as `hold` lies into the acceleration time.
pub open spec fn movement_speed_spec(settings: UiNavSettings, hold: u64) -> int {
    let time = settings.movement_acceleration_time;
    if time == 0 || hold >= time {
        settings.movement_speed_fast as int
    } else {
        lerp_spec(
            settings.movement_speed_slow as int,
            settings.movement_speed_fast as int,
            hold as int,
            time as int,
        )
    }
}

/// Computes the time between two moves of a direction that has been held
/// for `hold` microseconds.
pub fn movement_speed(settings: &UiNavSettings, hold: u64) -> (r: i64)
    ensures
        r == movement_speed_spec(*settings, hold),
{
    let time: u32 = settings.movement_acceleration_time;
    if time == 0 || hold >= time as u64 {
        settings.movement_speed_fast as i64
    } else {
        f32_lerp(
            settings.movement_speed_slow as i64,
            settings.movement_speed_fast as i64,
            hold as u32,
            time,
        )
    }
}

/// What the state of the actions asks of the navigation in one frame.
pub struct Asked {
    pub nav_state: UiNavState,
    pub requests: Seq<NavRequest>,
}

/// Whether a held direction gives a move in this frame: it has just been
/// pressed, or the time since its last move exceeds the time between two
/// moves.
pub open spec fn direction_moves(nav_state: UiNavState, settings: UiNavSettings) -> bool {
    nav_state.direction is None || nav_state.nav_timer.elapsed > movement_speed_spec(
        settings,
        nav_state.hold_timer.elapsed,
    )
}

/// The requests that the action key gives: a press when it went down, a
/// release when it came up.
pub open spec fn action_requests_spec(current: ActionFlags, previous: ActionFlags) -> Seq<NavRequest> {
    if current.action && !previous.action {
        seq![NavRequest::ActionPress]
    } else if !current.action && previous.action {
        seq![NavRequest::ActionRelease]
    } else {
        Seq::empty()
    }
}

/// The request that the cancel key gives when it went down.
pub open spec fn cancel_requests_spec(current: ActionFlags, previous: ActionFlags) -> Seq<NavRequest> {
    if current.cancel && !previous.cancel {
        seq![NavRequest::Cancel]
    } else {
        Seq::empty()
    }
}

/// What the state of the actions asks in one frame, and the navigation
/// state after it. While a menu is active and the navigation is unlocked,
/// a held direction gives a move when it is first pressed and then at the
/// pace of the settings, a direction that was let go gives its release, and
/// the action key gives its press and release. Else the held direction is
/// forgotten. The cancel key gives its request in either case.
pub open spec fn gamepad_requests_spec(
    nav_state: UiNavState,
    settings: UiNavSettings,
    current: ActionFlags,
    previous: ActionFlags,
) -> Asked {
    let cancel = cancel_requests_spec(current, previous);
    if nav_state.menu is Some && !nav_state.locked {
        let action = action_requests_spec(current, previous);
        match current.direction() {
            Some(direction) => if direction_moves(nav_state, settings) {
                Asked {
                    nav_state: UiNavState {
                        direction: Some(direction),
                        nav_timer: if nav_state.direction is None {
                            nav_state.nav_timer
                        } else {
                            Stopwatch { elapsed: 0 }
                        },
                        ..nav_state
                    },
                    requests: seq![NavRequest::Movement(direction)] + action + cancel,
                }
            } else {
                Asked {
                    nav_state: UiNavState { direction: Some(direction), ..nav_state },
                    requests: action + cancel,
                }
            },
            None => if nav_state.direction is Some {
                Asked {
                    nav_state: nav_state.direction_cleared(),
                    requests: seq![NavRequest::MovementReleased] + action + cancel,
                }
            } else {
                Asked { nav_state, requests: action + cancel }
            },
        }
    } else if nav_state.direction is Some {
        Asked { nav_state: nav_state.direction_cleared(), requests: cancel }
    } else {
        Asked { nav_state, requests: cancel }
    }
}

/// Turns the state of the actions into the requests of one frame.
pub fn action_requests(
    nav_state: &mut UiNavState,
    settings: &UiNavSettings,
    input_manager: &UiNavInputManager,
) -> (r: Vec<NavRequest>)
    ensures
        ({
            let asked = gamepad_requests_spec(
                *old(nav_state),
                *settings,
                input_manager.current(),
                input_manager.previous(),
            );
            *final(nav_state) == asked.nav_state && r@ == asked.requests
        }),
{
    let mut out: Vec<NavRequest> = Vec::new();
    if nav_state.menu.is_some() && !nav_state.locked {
        match input_manager.direction() {
            Some(direction) => {
                if nav_state.direction.is_none() {
                    out.push(NavRequest::Movement(direction));
                } else {
                    let speed: i64 = movement_speed(settings, nav_state.hold_timer.elapsed);
                    if speed < 0 || nav_state.nav_timer.elapsed > speed as u64 {
                        out.push(NavRequest::Movement(direction));
                        nav_state.nav_timer.reset();
                    }
                }
                nav_state.direction = Some(direction);
            },
            None => {
                if nav_state.direction.is_some() {
                    nav_state.clear_direction();
                    out.push(NavRequest::MovementReleased);
                }
            },
        }
        if input_manager.just_pressed(ActionType::Action) {
            out.push(NavRequest::ActionPress);
        } else if input_manager.just_released(ActionType::Action) {
            out.push(NavRequest::ActionRelease);
        }
    } else if nav_state.direction.is_some() {
        nav_state.clear_direction();
    }
    if input_manager.just_pressed(ActionType::Cancel) {
        out.push(NavRequest::Cancel);
    }
    proof {
        let asked = gamepad_requests_spec(
            *old(nav_state),
            *settings,
            input_manager.current(),
            input_manager.previous(),
        );
        assert(out@ =~= asked.requests);
    }
    out
}

/// Reads the gamepads into the input manager and turns the state of the
/// actions into the requests of one frame.
pub fn handle_gamepad_input(
    gamepads: &Vec<GamepadState>,
    nav_state: &mut UiNavState,
    settings: &UiNavSettings,
    input_manager: &mut UiNavInputManager,
) -> (r: Vec<NavRequest>)
    ensures
        final(input_manager).previous() == old(input_manager).current(),
        final(input_manager).current() == apply_mappings_spec(
            ActionFlags::none(),
            old(input_manager).input_map@,
            gamepads@,
            old(input_manager).gamepad,
            old(input_manager).stick_tolerance,
            old(input_manager).stick_snap_tolerance,
        ),
        final(input_manager).input_map@ == old(input_manager).input_map@,
        final(input_manager).stick_tolerance == old(input_manager).stick_tolerance,
        final(input_manager).stick_snap_tolerance == old(input_manager).stick_snap_tolerance,
        final(input_manager).gamepad == old(input_manager).gamepad,
        ({
            let asked = gamepad_requests_spec(
                *old(nav_state),
                *settings,
                final(input_manager).current(),
                final(input_manager).previous(),
            );
            *final(nav_state) == asked.nav_state && r@ == asked.requests
        }),
{
    update_input_manager(input_manager, gamepads);
    action_requests(nav_state, settings, input_manager)
}

/// The move that a key event gives through one line of the input map: a
/// key that goes down and that the line maps to a direction moves in it.
pub open spec fn key_event_request(event: KeyboardInput, mapping: InputMapping) -> Option<NavRequest> {
    match mapping {
        InputMapping::Key { keycode, action } => if keycode == event.key_code && event.state
            == ButtonState::Pressed {
            match action.direction_spec() {
                Some(direction) => Some(NavRequest::Movement(direction)),
                None => None,
            }
        } else {
            None
        },
        _ => None,
    }
}

/// The moves that one key event gives through the lines of the input map.
pub open spec fn event_requests_spec(event: KeyboardInput, mappings: Seq<InputMapping>) -> Seq<
    NavRequest,
>
    decreases mappings.len(),
{
    if mappings.len() == 0 {
        Seq::empty()
    } else {
        let before = event_requests_spec(event, mappings.drop_last());
        match key_event_request(event, mappings.last()) {
            Some(r) => before.push(r),
            None => before,
        }
    }
}

/// The moves that the key events of a frame give, event by event.
pub open spec fn keyboard_requests_spec(events: Seq<KeyboardInput>, mappings: Seq<InputMapping>) -> Seq<
    NavRequest,
>
    decreases events.len(),
{
    if events.len() == 0 {
        Seq::empty()
    } else {
        keyboard_requests_spec(events.drop_last(), mappings) + event_requests_spec(
            events.last(),
            mappings,
        )
    }
}

/// Turns the key events of a frame into moves.
pub fn handle_keyboard_input_events(events: &Vec<KeyboardInput>, input_manager: &UiNavInputManager) -> (r:
    Vec<NavRequest>)
    ensures
        r@ == keyboard_requests_spec(events@, input_manager.input_map@),
{
    let mut out: Vec<NavRequest> = Vec::new();
    let mut i: usize = 0;
    while i < events.len()
        invariant
            i <= events.len(),
            out@ == keyboard_requests_spec(events@.take(i as int), input_manager.input_map@),
        decreases events.len() - i,
    {
        proof {
            lemma_take_step(events@, i as int);
        }
        let event = events[i];
        let ghost before = out@;
        let mut k: usize = 0;
        while k < input_manager.input_map.len()
            invariant
                k <= input_manager.input_map.len(),
                out@ == before + event_requests_spec(event, input_manager.input_map@.take(k as int)),
            decreases input_manager.input_map.len() - k,
        {
            proof {
                lemma_take_step(input_manager.input_map@, k as int);
            }
            if let InputMapping::Key { keycode, action } = input_manager.input_map[k] {
                if keycode == event.key_code && event.state == ButtonState::Pressed {
                    if let Some(direction) = action.to_direction() {
                        out.push(NavRequest::Movement(direction));
                    }
                }
            }
            assert(out@ =~= before + event_requests_spec(
                event,
                input_manager.input_map@.take(k + 1),
            ));
            k += 1;
        }
        proof {
            lemma_take_all(input_manager.input_map@);
        }
        i += 1;
    }
    proof {
        lemma_take_all(events@);
    }
    out
}

/// The request that one line of the input map gives for the keys that
/// went down and came up: for the action key its press, else its release;
/// for the cancel key its press.
pub open spec fn key_press_request(
    mapping: InputMapping,
    just_pressed: Seq<KeyCode>,
    just_released: Seq<KeyCode>,
) -> Option<NavRequest> {
    match mapping {
        InputMapping::Key { keycode, action } => match action {
            ActionType::Action => if just_pressed.contains(keycode) {
                Some(NavRequest::ActionPress)
            } else if just_released.contains(keycode) {
                Some(NavRequest::ActionRelease)
            } else {
                None
            },
            ActionType::Cancel => if just_pressed.contains(keycode) {
                Some(NavRequest::Cancel)
            } else {
                None
            },
            _ => None,
        },
        _ => None,
    }
}

/// The requests that the lines of the input map give for the keys that
/// went down and came up.
pub open spec fn key_press_requests_spec(
    mappings: Seq<InputMapping>,
    just_pressed: Seq<KeyCode>,
    just_released: Seq<KeyCode>,
) -> Seq<NavRequest>
    decreases mappings.len(),
{
    if mappings.len() == 0 {
        Seq::empty()
    } else {
        let before = key_press_requests_spec(mappings.drop_last(), just_pressed, just_released);
        match key_press_request(mappings.last(), just_pressed, just_released) {
            Some(r) => before.push(r),
            None => before,
        }
    }
}

fn has_key(keys: &Vec<KeyCode>, key: KeyCode) -> (r: bool)
    ensures
        r == keys@.contains(key),
{
    let mut i: usize = 0;
    while i < keys.len()
        invariant
            i <= keys.len(),
            forall|j: int| 0 <= j < i ==> keys@[j] != key,
        decreases keys.len() - i,
    {
        if keys[i] == key {
            return true;
        }
        i += 1;
    }
    false
}

/// Turns the keys that went down and came up in a frame into presses and
/// releases of the action key and presses of the cancel key.
pub fn handle_keyboard_input_presses(
    just_pressed: &Vec<KeyCode>,
    just_released: &Vec<KeyCode>,
    input_manager: &UiNavInputManager,
) -> (r: Vec<NavRequest>)
    ensures
        r@ == key_press_requests_spec(input_manager.input_map@, just_pressed@, just_released@),
{
    let mut out: Vec<NavRequest> = Vec::new();
    let mut k: usize = 0;
    while k < input_manager.input_map.len()
        invariant
            k <= input_manager.input_map.len(),
            out@ == key_press_requests_spec(
                input_manager.input_map@.take(k as int),
                just_pressed@,
                just_released@,
            ),
        decreases input_manager.input_map.len() - k,
    {
        proof {
            lemma_take_step(input_manager.input_map@, k as int);
        }
        if let InputMapping::Key { keycode, action } = input_manager.input_map[k] {
            let nav_request: Option<NavRequest> = match action {
                ActionType::Action => {
                    if has_key(just_pressed, keycode) {
                        Some(NavRequest::ActionPress)
                    } else if has_key(just_released, keycode) {
                        Some(NavRequest::ActionRelease)
                    } else {
                        None
                    }
                },
                ActionType::Cancel => {
                    if has_key(just_pressed, keycode) {
                        Some(NavRequest::Cancel)
                    } else {
                        None
                    }
                },
                _ => None,
            };
            if let Some(nav_request) = nav_request {
                out.push(nav_request);
            }
        }
        k += 1;
    }
    proof {
        lemma_take_all(input_manager.input_map@);
    }
    out
}

} // verus!
