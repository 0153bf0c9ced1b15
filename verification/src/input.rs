//! The input synthesizer: validated, ordered event plans.
//!
//! Each operation turns its arguments into the exact sequence of events the
//! OS input subsystem must receive: absolute moves translated through the
//! monitor's origin, button strokes, scroll ticks, text insertions, key
//! strokes, and the fixed settle delays between them. The caller that owns
//! the OS input handle performs the events of a plan in order; a plan is
//! either complete or refused, so no event of a failing operation is ever
//! issued.

use vstd::prelude::*;

use crate::errors::Error;
use crate::keys::{chord_of, failing_token, resolve_chord, KeyChord, KeyToken, Platform};
use crate::monitor::Monitor;
use crate::text::str_eq;

verus! {

/// Milliseconds the cursor is given to settle between a commanded move and
/// the click that follows it, so that the OS registers the position before
/// the click event is delivered.
pub const SETTLE_DELAY_MS: u64 = 500;

/// Milliseconds between the two clicks of a double click, short enough for
/// the OS to read them as one gesture.
pub const DOUBLE_CLICK_GAP_MS: u64 = 30;

/// Milliseconds between the press, move and release of a drag; without the
/// pause some window managers drop the gesture.
pub const DRAG_STEP_GAP_MS: u64 = 30;

/// How many press/release repeats one duration unit of a held key issues.
pub const HOLD_REPEATS_PER_UNIT: i32 = 50;

/// The two mouse buttons this layer synthesizes. There is no middle-button
/// support in this design.
#[derive(Clone, Copy, Debug, PartialEq, Eq, Structural)]
pub enum MouseButton {
    /// The primary button.
    Left,
    /// The secondary button.
    Right,
}

/// How a button or key is actuated.
#[derive(Clone, Copy, Debug, PartialEq, Eq, Structural)]
pub enum Action {
    /// Push down and hold.
    Press,
    /// Push down and release as one stroke.
    Click,
    /// Let go of a held button or key.
    Release,
}

/// The axis a scroll tick moves along.
#[derive(Clone, Copy, Debug, PartialEq, Eq, Structural)]
pub enum ScrollAxis {
    /// Up/down scrolling.
    Vertical,
    /// Left/right scrolling.
    Horizontal,
}

/// One event for the OS input subsystem, in the order a plan lists them.
#[derive(Debug, PartialEq)]
pub enum InputEvent {
    /// Move the cursor to an absolute desktop position.
    MouseMove { x: i32, y: i32 },
    /// Actuate a mouse button.
    Button { button: MouseButton, action: Action },
    /// Actuate a key.
    Key { token: KeyToken, action: Action },
    /// Scroll by a signed number of ticks along an axis.
    Scroll { length: i32, axis: ScrollAxis },
    /// Insert a whole text through the OS text-injection path.
    Text { text: String },
    /// Block for the given number of milliseconds before the next event.
    Sleep { millis: u64 },
}

/// The button a side argument denotes; only `left` and `right` are accepted.
pub open spec fn button_of(s: Seq<char>) -> Option<MouseButton> {
    if s == "left"@ {
        Some(MouseButton::Left)
    } else if s == "right"@ {
        Some(MouseButton::Right)
    } else {
        None
    }
}

/// The axis a direction argument denotes; only `up`, `down`, `left` and
/// `right` are accepted.
pub open spec fn axis_of(s: Seq<char>) -> Option<ScrollAxis> {
    if s == "up"@ || s == "down"@ {
        Some(ScrollAxis::Vertical)
    } else if s == "left"@ || s == "right"@ {
        Some(ScrollAxis::Horizontal)
    } else {
        None
    }
}

/// The signed tick count a direction and amount denote: `up` and `left`
/// scroll negatively.
pub open spec fn scroll_length(s: Seq<char>, amount: int) -> int {
    if s == "up"@ || s == "left"@ {
        -amount
    } else {
        amount
    }
}

/// The tick amount an optional argument denotes; absent means one tick.
pub open spec fn amount_or_one(amount: Option<i32>) -> int {
    match amount {
        Some(a) => a as int,
        None => 1,
    }
}

/// Translates monitor-relative coordinates to the absolute desktop position
/// `(monitor.x + x, monitor.y + y)`.
pub fn to_absolute(m: &Monitor, x: i32, y: i32) -> (r: (i32, i32))
    requires
        i32::MIN <= m.x + x <= i32::MAX,
        i32::MIN <= m.y + y <= i32::MAX,
    ensures
        r.0 == m.x + x,
        r.1 == m.y + y,
{
    (m.x + x, m.y + y)
}

/// Re-expresses an absolute desktop position relative to the monitor's
/// origin: `(x - monitor.x, y - monitor.y)`, for reporting the cursor's
/// location in the monitor's own coordinate space.
pub fn to_relative(m: &Monitor, x: i32, y: i32) -> (r: (i32, i32))
    requires
        i32::MIN <= x - m.x <= i32::MAX,
        i32::MIN <= y - m.y <= i32::MAX,
    ensures
        r.0 == x - m.x,
        r.1 == y - m.y,
{
    (x - m.x, y - m.y)
}

/// The plan of a cursor move: one absolute move to the translated position.
pub fn plan_move(m: &Monitor, x: i32, y: i32) -> (r: Vec<InputEvent>)
    requires
        i32::MIN <= m.x + x <= i32::MAX,
        i32::MIN <= m.y + y <= i32::MAX,
    ensures
        r@ =~= seq![
            InputEvent::MouseMove { x: (m.x + x) as i32, y: (m.y + y) as i32 },
        ],
{
    let (ax, ay) = to_absolute(m, x, y);
    let mut events: Vec<InputEvent> = Vec::new();
    events.push(InputEvent::MouseMove { x: ax, y: ay });
    events
}

/// The plan of a single click: with both coordinates given, a translated
/// move and a settle delay come first; the side must be `left` or `right`,
/// anything else is refused before any event is planned.
pub fn plan_click(m: &Monitor, side: &str, x: Option<i32>, y: Option<i32>) -> (r: Result<
    Vec<InputEvent>,
    Error,
>)
    requires
        button_of(side@) is Some && x is Some && y is Some ==> i32::MIN <= m.x + x->0
            <= i32::MAX,
        button_of(side@) is Some && x is Some && y is Some ==> i32::MIN <= m.y + y->0
            <= i32::MAX,
    ensures
        r is Ok <==> button_of(side@) is Some,
        r matches Ok(events) ==> ({
            let b = button_of(side@)->0;
            if x is Some && y is Some {
                events@ =~= seq![
                    InputEvent::MouseMove { x: (m.x + x->0) as i32, y: (m.y + y->0) as i32 },
                    InputEvent::Sleep { millis: SETTLE_DELAY_MS },
                    InputEvent::Button { button: b, action: Action::Click },
                ]
            } else {
                events@ =~= seq![InputEvent::Button { button: b, action: Action::Click }]
            }
        }),
        r matches Err(e) ==> e matches Error::InvalidArgument(msg) && msg@
            == "Invalid mouse button"@,
{
    let button = resolve_button(side)?;
    let mut events: Vec<InputEvent> = Vec::new();
    if let (Some(xv), Some(yv)) = (x, y) {
        let (ax, ay) = to_absolute(m, xv, yv);
        events.push(InputEvent::MouseMove { x: ax, y: ay });
        events.push(InputEvent::Sleep { millis: SETTLE_DELAY_MS });
    }
    events.push(InputEvent::Button { button, action: Action::Click });
    Ok(events)
}

/// The plan of a double click: with both coordinates given, a translated
/// move with no settle delay comes first; then two clicks separated by the
/// short double-click gap.
pub fn plan_double_click(m: &Monitor, side: &str, x: Option<i32>, y: Option<i32>) -> (r: Result<
    Vec<InputEvent>,
    Error,
>)
    requires
        button_of(side@) is Some && x is Some && y is Some ==> i32::MIN <= m.x + x->0
            <= i32::MAX,
        button_of(side@) is Some && x is Some && y is Some ==> i32::MIN <= m.y + y->0
            <= i32::MAX,
    ensures
        r is Ok <==> button_of(side@) is Some,
        r matches Ok(events) ==> ({
            let b = button_of(side@)->0;
            let clicks = seq![
                InputEvent::Button { button: b, action: Action::Click },
                InputEvent::Sleep { millis: DOUBLE_CLICK_GAP_MS },
                InputEvent::Button { button: b, action: Action::Click },
            ];
            if x is Some && y is Some {
                events@ =~= seq![
                    InputEvent::MouseMove { x: (m.x + x->0) as i32, y: (m.y + y->0) as i32 },
                ] + clicks
            } else {
                events@ =~= clicks
            }
        }),
        r matches Err(e) ==> e matches Error::InvalidArgument(msg) && msg@
            == "Invalid mouse button"@,
{
    let button = resolve_button(side)?;
    let mut events: Vec<InputEvent> = Vec::new();
    if let (Some(xv), Some(yv)) = (x, y) {
        let (ax, ay) = to_absolute(m, xv, yv);
        events.push(InputEvent::MouseMove { x: ax, y: ay });
    }
    events.push(InputEvent::Button { button, action: Action::Click });
    events.push(InputEvent::Sleep { millis: DOUBLE_CLICK_GAP_MS });
    events.push(InputEvent::Button { button, action: Action::Click });
    Ok(events)
}

/// The plan of a drag: press the left button, pause, move to the translated
/// position where both coordinates are given, pause again, release. The
/// pauses stay even without a move.
pub fn plan_drag(m: &Monitor, x: Option<i32>, y: Option<i32>) -> (r: Vec<InputEvent>)
    requires
        x is Some && y is Some ==> i32::MIN <= m.x + x->0 <= i32::MAX,
        x is Some && y is Some ==> i32::MIN <= m.y + y->0 <= i32::MAX,
    ensures
        ({
            let press = InputEvent::Button { button: MouseButton::Left, action: Action::Press };
            let gap = InputEvent::Sleep { millis: DRAG_STEP_GAP_MS };
            let release = InputEvent::Button {
                button: MouseButton::Left,
                action: Action::Release,
            };
            if x is Some && y is Some {
                r@ =~= seq![
                    press,
                    gap,
                    InputEvent::MouseMove { x: (m.x + x->0) as i32, y: (m.y + y->0) as i32 },
                    gap,
                    release,
                ]
            } else {
                r@ =~= seq![press, gap, gap, release]
            }
        }),
{
    let mut events: Vec<InputEvent> = Vec::new();
    events.push(InputEvent::Button { button: MouseButton::Left, action: Action::Press });
    events.push(InputEvent::Sleep { millis: DRAG_STEP_GAP_MS });
    if let (Some(xv), Some(yv)) = (x, y) {
        let (ax, ay) = to_absolute(m, xv, yv);
        events.push(InputEvent::MouseMove { x: ax, y: ay });
    }
    events.push(InputEvent::Sleep { millis: DRAG_STEP_GAP_MS });
    events.push(InputEvent::Button { button: MouseButton::Left, action: Action::Release });
    events
}

/// The plan of a scroll: one tick event whose axis and sign come from the
/// direction (`up` and `left` are negative) and whose magnitude defaults to
/// one tick; any other direction is refused.
pub fn plan_scroll(amount: Option<i32>, direction: &str) -> (r: Result<Vec<InputEvent>, Error>)
    requires
        amount is Some && (direction@ == "up"@ || direction@ == "left"@) ==> amount->0
            != i32::MIN,
    ensures
        r is Ok <==> axis_of(direction@) is Some,
        r matches Ok(events) ==> events@ =~= seq![
            InputEvent::Scroll {
                length: scroll_length(direction@, amount_or_one(amount)) as i32,
                axis: axis_of(direction@)->0,
            },
        ],
        r matches Err(e) ==> e matches Error::InvalidArgument(msg) && msg@
            == "Invalid direction"@,
{
    let axis = if str_eq(direction, "up") || str_eq(direction, "down") {
        ScrollAxis::Vertical
    } else if str_eq(direction, "left") || str_eq(direction, "right") {
        ScrollAxis::Horizontal
    } else {
        return Err(Error::InvalidArgument("Invalid direction".to_owned()));
    };
    let a: i32 = match amount {
        Some(v) => v,
        None => 1,
    };
    let length: i32 = if str_eq(direction, "up") || str_eq(direction, "left") {
        0 - a
    } else {
        a
    };
    let mut events: Vec<InputEvent> = Vec::new();
    events.push(InputEvent::Scroll { length, axis });
    Ok(events)
}

/// The plan of a bare left-button press, for drag sequences the caller
/// drives across several operations.
pub fn plan_button_down() -> (r: Vec<InputEvent>)
    ensures
        r@ =~= seq![
            InputEvent::Button { button: MouseButton::Left, action: Action::Press },
        ],
{
    let mut events: Vec<InputEvent> = Vec::new();
    events.push(InputEvent::Button { button: MouseButton::Left, action: Action::Press });
    events
}

/// The plan of a bare left-button release.
pub fn plan_button_up() -> (r: Vec<InputEvent>)
    ensures
        r@ =~= seq![
            InputEvent::Button { button: MouseButton::Left, action: Action::Release },
        ],
{
    let mut events: Vec<InputEvent> = Vec::new();
    events.push(InputEvent::Button { button: MouseButton::Left, action: Action::Release });
    events
}

/// The plan of a text insertion: one whole-text event, not per-key strokes,
/// so non-ASCII text needs no key table.
pub fn plan_type_text(text: String) -> (r: Vec<InputEvent>)
    ensures
        r@ =~= seq![InputEvent::Text { text }],
{
    let mut events: Vec<InputEvent> = Vec::new();
    events.push(InputEvent::Text { text });
    events
}

/// The events one resolved chord issues: a bare key is one click; a chord
/// with a modifier presses the modifier, clicks the key, and releases the
/// modifier, in that strict order, so the modifier is held exactly while
/// the key is struck.
pub open spec fn chord_events(c: KeyChord) -> Seq<InputEvent> {
    match c.modifier {
        None => seq![InputEvent::Key { token: c.key, action: Action::Click }],
        Some(mt) => seq![
            InputEvent::Key { token: mt, action: Action::Press },
            InputEvent::Key { token: c.key, action: Action::Click },
            InputEvent::Key { token: mt, action: Action::Release },
        ],
    }
}

/// The plan of one chord: resolve both tokens first, then issue the chord's
/// events; a chord whose tokens do not all resolve is refused whole, so a
/// pressed modifier is never left without its release.
pub fn plan_press_key(chord: &str, platform: Platform) -> (r: Result<Vec<InputEvent>, Error>)
    ensures
        r is Ok <==> chord_of(chord@, platform) is Some,
        r matches Ok(events) ==> events@ =~= chord_events(chord_of(chord@, platform)->0),
        r matches Err(e) ==> e matches Error::UnknownKey(t) && t@ == failing_token(
            chord@,
            platform,
        ),
{
    let c = resolve_chord(chord, platform)?;
    let mut events: Vec<InputEvent> = Vec::new();
    push_chord(&mut events, c);
    Ok(events)
}

/// The given sequence repeated a number of times, end to end.
pub open spec fn repeated(s: Seq<InputEvent>, n: nat) -> Seq<InputEvent>
    decreases n,
{
    if n == 0 {
        Seq::empty()
    } else {
        repeated(s, (n - 1) as nat) + s
    }
}

/// Law: repeating a sequence n times yields exactly n times its length of
/// events, so a held key issues exactly its repeat count of strokes.
pub proof fn lemma_repeated_len(s: Seq<InputEvent>, n: nat)
    ensures
        repeated(s, n).len() == n * s.len(),
    decreases n,
{
    if n > 0 {
        lemma_repeated_len(s, (n - 1) as nat);
        assert(repeated(s, n) == repeated(s, (n - 1) as nat) + s);
        assert((n - 1) as nat * s.len() + s.len() == n * s.len()) by (nonlinear_arith)
            requires
                n > 0,
        ;
    } else {
        assert(n * s.len() == 0) by (nonlinear_arith)
            requires
                n == 0,
        ;
    }
}

/// The repeat count a duration denotes: the duration in units (one where
/// absent) times the per-unit repeat count.
pub open spec fn hold_times(duration: Option<i32>) -> int {
    (match duration {
        Some(d) => d as int,
        None => 1,
    }) * HOLD_REPEATS_PER_UNIT
}

/// The plan of a held key: the chord's events repeated `duration * 50`
/// times back to back, an approximation of holding rather than a true
/// press-and-hold; a non-positive duration plans nothing.
pub fn plan_hold_key(chord: &str, platform: Platform, duration: Option<i32>) -> (r: Result<
    Vec<InputEvent>,
    Error,
>)
    requires
        duration matches Some(d) ==> i32::MIN <= d * HOLD_REPEATS_PER_UNIT <= i32::MAX,
    ensures
        r is Ok <==> chord_of(chord@, platform) is Some,
        r matches Ok(events) ==> ({
            let unit = chord_events(chord_of(chord@, platform)->0);
            let n = if hold_times(duration) > 0 {
                hold_times(duration)
            } else {
                0
            };
            events@ =~= repeated(unit, n as nat)
        }),
        r matches Err(e) ==> e matches Error::UnknownKey(t) && t@ == failing_token(
            chord@,
            platform,
        ),
{
    let c = resolve_chord(chord, platform)?;
    let times: i32 = match duration {
        Some(d) => d * HOLD_REPEATS_PER_UNIT,
        None => HOLD_REPEATS_PER_UNIT,
    };
    let mut events: Vec<InputEvent> = Vec::new();
    let mut k: i32 = 0;
    while k < times
        invariant
            0 <= k,
            times <= i32::MAX,
            k <= times || k == 0,
            events@ =~= repeated(chord_events(c), k as nat),
        decreases times - k,
    {
        push_chord(&mut events, c);
        k = k + 1;
    }
    Ok(events)
}

/// Resolves a button side argument; only `left` and `right` are accepted.
fn resolve_button(side: &str) -> (r: Result<MouseButton, Error>)
    ensures
        r is Ok <==> button_of(side@) is Some,
        r matches Ok(b) ==> button_of(side@) == Some(b),
        r matches Err(e) ==> e matches Error::InvalidArgument(msg) && msg@
            == "Invalid mouse button"@,
{
    if str_eq(side, "left") {
        Ok(MouseButton::Left)
    } else if str_eq(side, "right") {
        Ok(MouseButton::Right)
    } else {
        Err(Error::InvalidArgument("Invalid mouse button".to_owned()))
    }
}

/// Appends one chord's events to a plan under construction.
fn push_chord(events: &mut Vec<InputEvent>, c: KeyChord)
    ensures
        final(events)@ =~= old(events)@ + chord_events(c),
{
    match c.modifier {
        None => {
            events.push(InputEvent::Key { token: c.key, action: Action::Click });
        },
        Some(mt) => {
            events.push(InputEvent::Key { token: mt, action: Action::Press });
            events.push(InputEvent::Key { token: c.key, action: Action::Click });
            events.push(InputEvent::Key { token: mt, action: Action::Release });
        },
    }
}

/// The key and button presses still held after the given events were
/// performed in order: a Press pushes, the matching Release pops, a Click
/// holds nothing, and nothing else touches a key or a button.
pub open spec fn held_after(events: Seq<InputEvent>) -> Seq<InputEvent>
    decreases events.len(),
{
    if events.len() == 0 {
        Seq::empty()
    } else {
        let rest = held_after(events.drop_last());
        match events.last() {
            InputEvent::Key { token, action } => match action {
                Action::Press => rest.push(events.last()),
                Action::Release => if rest.len() > 0 && rest.last() == (InputEvent::Key {
                    token,
                    action: Action::Press,
                }) {
                    rest.drop_last()
                } else {
                    rest
                },
                Action::Click => rest,
            },
            InputEvent::Button { button, action } => match action {
                Action::Press => rest.push(events.last()),
                Action::Release => if rest.len() > 0 && rest.last() == (InputEvent::Button {
                    button,
                    action: Action::Press,
                }) {
                    rest.drop_last()
                } else {
                    rest
                },
                Action::Click => rest,
            },
            _ => rest,
        }
    }
}

/// The event that lets go of a held press; anything else passes unchanged.
pub open spec fn release_of(e: InputEvent) -> InputEvent {
    match e {
        InputEvent::Key { token, action } => InputEvent::Key { token, action: Action::Release },
        InputEvent::Button { button, action } => InputEvent::Button {
            button,
            action: Action::Release,
        },
        _ => e,
    }
}

/// The releases owed for a stack of held presses: one Release per press, in
/// reverse order of pressing, so nested holds unwind innermost first.
pub open spec fn releases_of(held: Seq<InputEvent>) -> Seq<InputEvent> {
    Seq::new(held.len(), |i: int| release_of(held[held.len() - 1 - i]))
}

/// Law: every press or release a plan's events hold open is accounted for —
/// performing a plan up to some point and then the releases this function
/// owes leaves no key or button held, so a modifier pressed by a plan that
/// failed midway is always let go of.
///
/// Computes the releases owed after the first `performed` events of a plan
/// were carried out and the rest abandoned: a Release, in reverse order of
/// pressing, for every key or button press still held at that point.
pub fn releases_owed(plan: &Vec<InputEvent>, performed: usize) -> (r: Vec<InputEvent>)
    requires
        performed <= plan@.len(),
    ensures
        r@ == releases_of(held_after(plan@.subrange(0, performed as int))),
{
    let ghost whole = plan@.subrange(0, performed as int);
    let mut held: Vec<InputEvent> = Vec::new();
    let mut i: usize = 0;
    while i < performed
        invariant
            i <= performed,
            performed <= plan@.len(),
            whole == plan@.subrange(0, performed as int),
            held@ == held_after(plan@.subrange(0, i as int)),
            forall|k: int|
                0 <= k < held@.len() ==> (#[trigger] held@[k] matches InputEvent::Key {
                    action: Action::Press,
                    ..
                } || held@[k] matches InputEvent::Button { action: Action::Press, .. }),
        decreases performed - i,
    {
        let ghost prefix = plan@.subrange(0, i as int);
        match &plan[i] {
            InputEvent::Key { token, action } => match action {
                Action::Press => {
                    held.push(InputEvent::Key { token: *token, action: Action::Press });
                },
                Action::Release => {
                    let pop = if held.len() > 0 {
                        match &held[held.len() - 1] {
                            InputEvent::Key { token: held_token, action: _ } => *held_token
                                == *token,
                            _ => false,
                        }
                    } else {
                        false
                    };
                    if pop {
                        held.pop();
                    }
                },
                Action::Click => {},
            },
            InputEvent::Button { button, action } => match action {
                Action::Press => {
                    held.push(InputEvent::Button { button: *button, action: Action::Press });
                },
                Action::Release => {
                    let pop = if held.len() > 0 {
                        match &held[held.len() - 1] {
                            InputEvent::Button { button: held_button, action: _ } => *held_button
                                == *button,
                            _ => false,
                        }
                    } else {
                        false
                    };
                    if pop {
                        held.pop();
                    }
                },
                Action::Click => {},
            },
            _ => {},
        }
        i = i + 1;
        proof {
            assert(plan@.subrange(0, i as int).drop_last() =~= prefix);
            assert(plan@.subrange(0, i as int).last() == plan@[i - 1]);
        }
    }
    proof {
        assert(plan@.subrange(0, i as int) =~= whole);
    }
    let mut out: Vec<InputEvent> = Vec::new();
    let mut j: usize = held.len();
    while j > 0
        invariant
            j <= held@.len(),
            held@ == held_after(whole),
            forall|k: int|
                0 <= k < held@.len() ==> (#[trigger] held@[k] matches InputEvent::Key {
                    action: Action::Press,
                    ..
                } || held@[k] matches InputEvent::Button { action: Action::Press, .. }),
            out@ =~= releases_of(held@).subrange(0, (held@.len() - j) as int),
        decreases j,
    {
        match &held[j - 1] {
            InputEvent::Key { token, action: _ } => {
                out.push(InputEvent::Key { token: *token, action: Action::Release });
            },
            InputEvent::Button { button, action: _ } => {
                out.push(InputEvent::Button { button: *button, action: Action::Release });
            },
            _ => {
                proof {
                    assert(false);
                }
            },
        }
        j = j - 1;
        proof {
            assert(out@ =~= releases_of(held@).subrange(0, (held@.len() - j) as int));
        }
    }
    proof {
        assert(releases_of(held@).subrange(0, held@.len() as int) =~= releases_of(held@));
    }
    out
}

} // verus!

