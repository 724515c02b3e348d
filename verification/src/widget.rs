//! A horizontal bar and a handle that selects a single value from a range of
//! values.
//!
//! The slider decides; its host acts. Each input event is handed to
//! [`Slider::on_event`], which moves the value and the interaction state and
//! says what the host has to publish.
use vstd::prelude::*;
use crate::event::{gesture_of, Event, EventStatus, Gesture, Key, Modifiers};
use crate::geometry::{Cursor, Point, Rectangle};
use crate::layout::{atomic, resolved, Length, Limits, Node, SizePolicy};
use crate::numeric::{int_of, narrowed, Numeric};
use crate::quantize::{
    active_step,
    decrement,
    decremented,
    increment,
    incremented,
    lemma_pointer_stays_in_range,
    lemma_steps_stay_in_range,
    locate,
    located,
};
use crate::render::{
    Fill,
    handle_extent,
    handle_fill,
    offset_of,
    paint,
    rail_after,
    rail_before,
};
use crate::style::{Appearance, DefaultStyle, Status};

verus! {

/// The height of a slider unless another is set.
pub const DEFAULT_HEIGHT: u32 = 16;

/// The values that a slider can take, from `start` up to and including `end`.
#[derive(Debug, PartialEq, Eq)]
pub struct ValueRange<T> {
    pub start: T,
    pub end: T,
}

/// What a slider remembers between events; it belongs to the host, which lends
/// it for each call.
#[derive(Clone, Copy, Debug, PartialEq, Eq, Structural)]
pub struct State {
    /// Whether a drag is under way.
    pub is_dragging: bool,
    /// The modifier keys that are held.
    pub keyboard_modifiers: Modifiers,
}

impl Default for State {
    /// Not dragging, no modifier held.
    fn default() -> (state: State)
        ensures
            state == (State { is_dragging: false, keyboard_modifiers: Modifiers::none() }),
    {
        State { is_dragging: false, keyboard_modifiers: Modifiers { shift: false, command: false } }
    }
}

/// How the pointer should look over a slider.
#[derive(Clone, Copy, Debug, PartialEq, Eq, Structural)]
pub enum Interaction {
    /// As anywhere else.
    Idle,
    /// The slider can be grabbed.
    Grab,
    /// The slider is held.
    Grabbing,
}

/// A message that the host has to publish.
#[derive(Debug, PartialEq, Eq)]
pub enum Emission<T> {
    /// The value changed to this one.
    Changed(T),
    /// The drag ended.
    Released,
}

/// What came of an event.
#[derive(Debug, PartialEq, Eq)]
pub struct Response<T> {
    /// Whether the slider consumed the event.
    pub status: EventStatus,
    /// The message to publish, if any.
    pub emitted: Option<Emission<T>>,
}

/// A message, with the value as the integer that it stands for.
pub enum Signal {
    /// The value changed to this one.
    Changed(int),
    /// The drag ended.
    Released,
}

/// The signal that an emission stands for.
pub open spec fn signal_of<T: Numeric>(emitted: Option<Emission<T>>) -> Option<Signal> {
    match emitted {
        Some(Emission::Changed(value)) => Some(Signal::Changed(value.as_int())),
        Some(Emission::Released) => Some(Signal::Released),
        None => None,
    }
}

/// A slider as contracts see it: its values as the integers that they stand
/// for.
pub struct SliderView<Message> {
    pub start: int,
    pub end: int,
    pub step: int,
    pub shift_step: Option<int>,
    pub value: int,
    pub default: Option<int>,
    pub on_release: Option<Message>,
    pub width: Length,
    pub height: u32,
}

/// What an event does to a slider.
pub struct Reaction {
    /// The value after the event.
    pub value: int,
    /// The interaction state after the event.
    pub state: State,
    /// Whether the event was consumed.
    pub status: EventStatus,
    /// The message to publish, if any.
    pub emitted: Option<Signal>,
}

/// `value` held between `start` and `end`: raised to `start` first, then
/// lowered to `end`.
pub open spec fn clamped(value: int, start: int, end: int) -> int {
    let raised = if value >= start {
        value
    } else {
        start
    };
    if raised <= end {
        raised
    } else {
        end
    }
}

/// The value that is stored once `candidate` was offered: the candidate where
/// there is one, otherwise the value as it was.
pub open spec fn settled(value: int, candidate: Option<int>) -> int {
    match candidate {
        Some(next) => next,
        None => value,
    }
}

/// The message that offering `candidate` calls for: a change, exactly where
/// there is a candidate and it differs from the stored value. Values are whole
/// numbers, so any difference is at least one unit.
pub open spec fn announced(value: int, candidate: Option<int>) -> Option<Signal> {
    match candidate {
        Some(next) => if next != value {
            Some(Signal::Changed(next))
        } else {
            None
        },
        None => None,
    }
}

/// The reaction to a candidate on an event that is consumed.
pub open spec fn offered(value: int, candidate: Option<int>, state: State) -> Reaction {
    Reaction {
        value: settled(value, candidate),
        state,
        status: EventStatus::Captured,
        emitted: announced(value, candidate),
    }
}

/// The value that the pointer selects at the horizontal position `x`, with the
/// step that the held modifiers put in force, as far as `T` can represent it.
pub open spec fn pointed<T: Numeric, Message>(
    slider: SliderView<Message>,
    state: State,
    bounds: Rectangle,
    x: i32,
) -> Option<int> {
    narrowed::<T>(
        located(
            slider.start,
            slider.end,
            active_step(slider.step, slider.shift_step, state.keyboard_modifiers.shift),
            bounds.x as int,
            bounds.width as int,
            x as int,
        ),
    )
}

/// What an event does to a slider whose values are of type `T`.
///
/// - The primary button or a finger goes down inside the bounds: with the
///   command key held, the default value is restored if one is set, and no
///   drag begins; otherwise the value under the pointer is selected and a drag
///   begins.
/// - The button or finger goes up, or the finger is lost, during a drag: the
///   drag ends, and the release is announced if a message is set for it.
/// - The pointer or finger moves during a drag: the value under the pointer is
///   selected, wherever the pointer is.
/// - The up or down arrow goes down while the pointer is inside the bounds:
///   the value goes one step up or down.
/// - The held modifiers change: they are remembered.
///
/// Each of these consumes the event. Anything else is ignored and changes
/// nothing.
pub open spec fn react<T: Numeric, Message>(
    slider: SliderView<Message>,
    state: State,
    event: Event,
    bounds: Rectangle,
    cursor: Cursor,
) -> Reaction {
    let step = active_step(slider.step, slider.shift_step, state.keyboard_modifiers.shift);
    let ignored = Reaction {
        value: slider.value,
        state,
        status: EventStatus::Ignored,
        emitted: None,
    };
    match gesture_of(event) {
        Gesture::Press => match cursor.spec_position_over(bounds) {
            Some(position) => if state.keyboard_modifiers.command {
                offered(slider.value, slider.default, State { is_dragging: false, ..state })
            } else {
                offered(
                    slider.value,
                    pointed::<T, Message>(slider, state, bounds, position.x),
                    State { is_dragging: true, ..state },
                )
            },
            None => ignored,
        },
        Gesture::Release => if state.is_dragging {
            Reaction {
                value: slider.value,
                state: State { is_dragging: false, ..state },
                status: EventStatus::Captured,
                emitted: if slider.on_release.is_some() {
                    Some(Signal::Released)
                } else {
                    None
                },
            }
        } else {
            ignored
        },
        Gesture::Move => if state.is_dragging {
            match cursor.spec_position() {
                Some(position) => offered(
                    slider.value,
                    pointed::<T, Message>(slider, state, bounds, position.x),
                    state,
                ),
                None => offered(slider.value, None, state),
            }
        } else {
            ignored
        },
        Gesture::KeyDown(key) => if cursor.spec_is_over(bounds) {
            match key {
                Key::ArrowUp => offered(
                    slider.value,
                    narrowed::<T>(incremented(slider.value, slider.end, step)),
                    state,
                ),
                Key::ArrowDown => offered(
                    slider.value,
                    narrowed::<T>(decremented(slider.value, slider.start, step)),
                    state,
                ),
                Key::Other => ignored,
            }
        } else {
            ignored
        },
        Gesture::Modifiers(modifiers) => Reaction {
            value: slider.value,
            state: State { keyboard_modifiers: modifiers, ..state },
            status: EventStatus::Captured,
            emitted: None,
        },
        Gesture::Nothing => ignored,
    }
}

/// The status that the look of a slider goes by: dragged during a drag,
/// otherwise hovered while the pointer is inside the bounds, otherwise active.
pub open spec fn status_of(state: State, bounds: Rectangle, cursor: Cursor) -> Status {
    if state.is_dragging {
        Status::Dragged
    } else if cursor.spec_is_over(bounds) {
        Status::Hovered
    } else {
        Status::Active
    }
}

/// The messages that one reaction publishes: one or none.
pub open spec fn published(emitted: Option<Signal>) -> Seq<Signal> {
    match emitted {
        Some(signal) => seq![signal],
        None => Seq::empty(),
    }
}

/// The messages that a move of the value from `before` to `after` publishes:
/// the change, unless the value stayed.
pub open spec fn change_from(before: int, after: int) -> Seq<Signal> {
    if after != before {
        seq![Signal::Changed(after)]
    } else {
        Seq::empty()
    }
}

/// A slider with another value.
pub open spec fn with_value<Message>(slider: SliderView<Message>, value: int) -> SliderView<
    Message,
> {
    SliderView { value, ..slider }
}

/// A whole drag publishes its messages in order. A press inside the bounds
/// without the command key, then a move, then a release are each consumed; the
/// slider drags after the press and after the move and no longer after the
/// release; and what is published, in this order, is the change that the press
/// made, if it made one, the change that the move made, if it made one, and
/// the release, if a message is set for it.
pub proof fn lemma_drag_publishes_in_order<T: Numeric, Message>(
    slider: SliderView<Message>,
    state: State,
    bounds: Rectangle,
    press: Event,
    pressed_at: Cursor,
    moved: Event,
    moved_to: Cursor,
    release: Event,
    released_at: Cursor,
)
    requires
        gesture_of(press) == Gesture::Press,
        gesture_of(moved) == Gesture::Move,
        gesture_of(release) == Gesture::Release,
        pressed_at.spec_is_over(bounds),
        !state.keyboard_modifiers.command,
    ensures
        ({
            let first = react::<T, Message>(slider, state, press, bounds, pressed_at);
            let second = react::<T, Message>(
                with_value(slider, first.value),
                first.state,
                moved,
                bounds,
                moved_to,
            );
            let third = react::<T, Message>(
                with_value(slider, second.value),
                second.state,
                release,
                bounds,
                released_at,
            );
            &&& first.status == EventStatus::Captured
            &&& second.status == EventStatus::Captured
            &&& third.status == EventStatus::Captured
            &&& first.state.is_dragging
            &&& second.state.is_dragging
            &&& !third.state.is_dragging
            &&& third.value == second.value
            &&& published(first.emitted) == change_from(slider.value, first.value)
            &&& published(second.emitted) == change_from(first.value, second.value)
            &&& published(third.emitted) == (if slider.on_release.is_some() {
                seq![Signal::Released]
            } else {
                Seq::empty()
            })
        }),
{
}

/// A drag goes on while the pointer is outside the bounds: during a drag every
/// move is consumed and selects the value under the pointer, wherever the
/// pointer is, and the drag goes on.
pub proof fn lemma_drag_follows_pointer<T: Numeric, Message>(
    slider: SliderView<Message>,
    state: State,
    moved: Event,
    bounds: Rectangle,
    position: Point,
)
    requires
        gesture_of(moved) == Gesture::Move,
        state.is_dragging,
    ensures
        react::<T, Message>(slider, state, moved, bounds, Cursor::Available(position)) == offered(
            slider.value,
            pointed::<T, Message>(slider, state, bounds, position.x),
            state,
        ),
{
}

/// Whether a slider is set up so that its value cannot leave its range: the
/// range is not reversed and its ends can be represented, the value and the
/// default are within the range, and the range spans a whole number of steps,
/// and of shift steps, which are positive.
pub open spec fn well_configured<T: Numeric, Message>(slider: SliderView<Message>) -> bool {
    &&& T::representable(slider.start)
    &&& T::representable(slider.end)
    &&& slider.start <= slider.value <= slider.end
    &&& slider.step > 0
    &&& (slider.end - slider.start) % slider.step == 0
    &&& slider.shift_step matches Some(shift_step) ==> shift_step > 0 && (slider.end
        - slider.start) % shift_step == 0
    &&& slider.default matches Some(default) ==> slider.start <= default <= slider.end
}

/// No event takes the value of a well configured slider out of its range, and
/// the slider stays well configured.
pub proof fn lemma_value_stays_in_range<T: Numeric, Message>(
    slider: SliderView<Message>,
    state: State,
    event: Event,
    bounds: Rectangle,
    cursor: Cursor,
)
    requires
        well_configured::<T, Message>(slider),
    ensures
        ({
            let reaction = react::<T, Message>(slider, state, event, bounds, cursor);
            &&& slider.start <= reaction.value <= slider.end
            &&& well_configured::<T, Message>(with_value(slider, reaction.value))
        }),
{
    let step = active_step(slider.step, slider.shift_step, state.keyboard_modifiers.shift);
    lemma_steps_stay_in_range::<T>(slider.value, slider.start, slider.end, step);
    assert forall|x: i32|
        (#[trigger] pointed::<T, Message>(slider, state, bounds, x)) matches Some(value)
            && slider.start <= value <= slider.end by {
        lemma_pointer_stays_in_range::<T>(
            slider.start,
            slider.end,
            step,
            bounds.x as int,
            bounds.width as int,
            x as int,
        );
    }
}

/// An horizontal bar and a handle that selects a single value from a range of
/// values.
///
/// A slider tries to fill the horizontal space of its container. Its step is
/// one unit unless another is set.
pub struct Slider<T, Message> {
    range: ValueRange<T>,
    step: T,
    shift_step: Option<T>,
    value: T,
    default: Option<T>,
    on_release: Option<Message>,
    width: Length,
    height: u32,
}

impl<T: Numeric, Message> View for Slider<T, Message> {
    type V = SliderView<Message>;

    closed spec fn view(&self) -> SliderView<Message> {
        SliderView {
            start: self.range.start.as_int(),
            end: self.range.end.as_int(),
            step: self.step.as_int(),
            shift_step: int_of(self.shift_step),
            value: self.value.as_int(),
            default: int_of(self.default),
            on_release: self.on_release,
            width: self.width,
            height: self.height,
        }
    }
}

impl<T: Numeric, Message> Slider<T, Message> {
    /// Creates a slider over `range` that shows `value`, held between the ends
    /// of the range: a value inside the range is kept, one outside becomes the
    /// nearest end.
    pub fn new(range: ValueRange<T>, value: T) -> (slider: Self)
        ensures
            slider@ == (SliderView::<Message> {
                start: range.start.as_int(),
                end: range.end.as_int(),
                step: 1,
                shift_step: None,
                value: clamped(value.as_int(), range.start.as_int(), range.end.as_int()),
                default: None,
                on_release: None,
                width: Length::Fill,
                height: DEFAULT_HEIGHT,
            }),
            range.start.as_int() <= value.as_int() <= range.end.as_int() ==> slider@.value
                == value.as_int(),
            range.start.as_int() <= range.end.as_int() && value.as_int() < range.start.as_int()
                ==> slider@.value == range.start.as_int(),
            range.start.as_int() <= range.end.as_int() && value.as_int() > range.end.as_int()
                ==> slider@.value == range.end.as_int(),
    {
        let value = if value.widen() >= range.start.widen() {
            value
        } else {
            range.start
        };
        let value = if value.widen() <= range.end.widen() {
            value
        } else {
            range.end
        };
        Slider {
            value,
            default: None,
            range,
            step: T::unit(),
            shift_step: None,
            on_release: None,
            width: Length::Fill,
            height: DEFAULT_HEIGHT,
        }
    }

    /// Sets the value that the slider goes back to on a press with the command
    /// key held.
    pub fn default(self, default: T) -> (slider: Self)
        ensures
            slider@ == (SliderView { default: Some(default.as_int()), ..self@ }),
    {
        let mut slider = self;
        slider.default = Some(default);
        slider
    }

    /// Sets the message that is published when a drag ends.
    pub fn on_release(self, on_release: Message) -> (slider: Self)
        ensures
            slider@ == (SliderView { on_release: Some(on_release), ..self@ }),
    {
        let mut slider = self;
        slider.on_release = Some(on_release);
        slider
    }

    /// Sets the width of the slider.
    pub fn width(self, width: Length) -> (slider: Self)
        ensures
            slider@ == (SliderView { width, ..self@ }),
    {
        let mut slider = self;
        slider.width = width;
        slider
    }

    /// Sets the height of the slider.
    pub fn height(self, height: u32) -> (slider: Self)
        ensures
            slider@ == (SliderView { height, ..self@ }),
    {
        let mut slider = self;
        slider.height = height;
        slider
    }

    /// Sets the step size of the slider.
    pub fn step(self, step: T) -> (slider: Self)
        ensures
            slider@ == (SliderView { step: step.as_int(), ..self@ }),
    {
        let mut slider = self;
        slider.step = step;
        slider
    }

    /// Sets the step that is in force while a shift key is held.
    pub fn shift_step(self, shift_step: T) -> (slider: Self)
        ensures
            slider@ == (SliderView { shift_step: Some(shift_step.as_int()), ..self@ }),
    {
        let mut slider = self;
        slider.shift_step = Some(shift_step);
        slider
    }

    /// The value that the slider shows.
    pub fn value(&self) -> (value: T)
        ensures
            value.as_int() == self@.value,
    {
        self.value
    }

    /// The message to publish when a drag ends, if one is set.
    pub fn release_message(&self) -> (message: Option<&Message>)
        ensures
            message.is_some() == self@.on_release.is_some(),
            message matches Some(message) ==> self@.on_release == Some(*message),
    {
        self.on_release.as_ref()
    }

    /// The interaction state of a slider that has seen no event yet.
    pub fn state(&self) -> (state: State)
        ensures
            state == (State { is_dragging: false, keyboard_modifiers: Modifiers::none() }),
    {
        State::default()
    }

    /// What the slider asks of its container: its width as set, and as little
    /// height as possible.
    pub fn size(&self) -> (size: SizePolicy)
        ensures
            size == (SizePolicy { width: self@.width, height: Length::Shrink }),
    {
        SizePolicy { width: self.width, height: Length::Shrink }
    }

    /// Lays the slider out: a box without children, as wide as the limits and
    /// the width of the slider allow, and of the slider's height as far as the
    /// limits allow.
    pub fn layout(&self, limits: &Limits) -> (node: Node)
        ensures
            node.bounds == (Rectangle {
                x: 0,
                y: 0,
                width: resolved(self@.width, limits.min.width, limits.max.width),
                height: resolved(
                    Length::Fixed(self@.height),
                    limits.min.height,
                    limits.max.height,
                ),
            }),
    {
        atomic(limits, self.width, Length::Fixed(self.height))
    }

    /// The step that the held modifiers put in force.
    fn step_in_force(&self, state: &State) -> (step: T)
        ensures
            step.as_int() == active_step(
                self@.step,
                self@.shift_step,
                state.keyboard_modifiers.shift,
            ),
    {
        if state.keyboard_modifiers.shift {
            match self.shift_step {
                Some(shift_step) => shift_step,
                None => self.step,
            }
        } else {
            self.step
        }
    }

    /// Offers the slider a new value. Where it differs from the value that the
    /// slider shows, it is stored and announced; otherwise nothing is stored
    /// and nothing announced.
    pub fn change(&mut self, new_value: T) -> (emitted: Option<Emission<T>>)
        ensures
            final(self)@ == (SliderView { value: new_value.as_int(), ..old(self)@ }),
            new_value.as_int() != old(self)@.value ==> emitted == Some(
                Emission::Changed(new_value),
            ),
            new_value.as_int() == old(self)@.value ==> emitted.is_none() && *final(self) == *old(
                self,
            ),
            signal_of(emitted) == announced(old(self)@.value, Some(new_value.as_int())),
    {
        if self.value.widen() != new_value.widen() {
            self.value = new_value;
            Some(Emission::Changed(new_value))
        } else {
            None
        }
    }

    /// Offers the slider a candidate, if there is one.
    fn offer(&mut self, candidate: Option<T>) -> (emitted: Option<Emission<T>>)
        ensures
            final(self)@ == (SliderView {
                value: settled(old(self)@.value, int_of(candidate)),
                ..old(self)@
            }),
            signal_of(emitted) == announced(old(self)@.value, int_of(candidate)),
    {
        match candidate {
            Some(new_value) => self.change(new_value),
            None => None,
        }
    }

    /// Handles one input event: moves the value and the interaction state as
    /// [`react`] says, and returns whether the event was consumed and what is
    /// to be published.
    pub fn on_event(
        &mut self,
        state: &mut State,
        event: Event,
        bounds: Rectangle,
        cursor: Cursor,
    ) -> (response: Response<T>)
        ensures
            ({
                let reaction = react::<T, Message>(old(self)@, *old(state), event, bounds, cursor);
                &&& final(self)@ == (SliderView { value: reaction.value, ..old(self)@ })
                &&& *final(state) == reaction.state
                &&& response.status == reaction.status
                &&& signal_of(response.emitted) == reaction.emitted
            }),
    {
        let step = self.step_in_force(state);
        match event.gesture() {
            Gesture::Press => {
                if let Some(position) = cursor.position_over(bounds) {
                    let emitted = if state.keyboard_modifiers.command {
                        state.is_dragging = false;
                        let default = self.default;
                        self.offer(default)
                    } else {
                        state.is_dragging = true;
                        let located = locate(
                            self.range.start,
                            self.range.end,
                            step,
                            bounds,
                            position.x,
                        );
                        self.offer(located)
                    };
                    return Response { status: EventStatus::Captured, emitted };
                }
            },
            Gesture::Release => {
                if state.is_dragging {
                    state.is_dragging = false;
                    let emitted = if self.on_release.is_some() {
                        Some(Emission::Released)
                    } else {
                        None
                    };
                    return Response { status: EventStatus::Captured, emitted };
                }
            },
            Gesture::Move => {
                if state.is_dragging {
                    let located = match cursor.position() {
                        Some(position) => locate(
                            self.range.start,
                            self.range.end,
                            step,
                            bounds,
                            position.x,
                        ),
                        None => None,
                    };
                    let emitted = self.offer(located);
                    return Response { status: EventStatus::Captured, emitted };
                }
            },
            Gesture::KeyDown(key) => {
                if cursor.is_over(bounds) {
                    match key {
                        Key::ArrowUp => {
                            let next = increment(self.value, self.range.end, step);
                            let emitted = self.offer(next);
                            return Response { status: EventStatus::Captured, emitted };
                        },
                        Key::ArrowDown => {
                            let next = decrement(self.value, self.range.start, step);
                            let emitted = self.offer(next);
                            return Response { status: EventStatus::Captured, emitted };
                        },
                        Key::Other => {},
                    }
                }
            },
            Gesture::Modifiers(modifiers) => {
                state.keyboard_modifiers = modifiers;
                return Response { status: EventStatus::Captured, emitted: None };
            },
            Gesture::Nothing => {},
        }
        Response { status: EventStatus::Ignored, emitted: None }
    }

    /// The status that the look of the slider goes by.
    pub fn status(&self, state: &State, bounds: Rectangle, cursor: Cursor) -> (status: Status)
        ensures
            status == status_of(*state, bounds, cursor),
    {
        if state.is_dragging {
            Status::Dragged
        } else if cursor.is_over(bounds) {
            Status::Hovered
        } else {
            Status::Active
        }
    }

    /// The fills that draw the slider with the given look, in drawing order:
    /// the rail before the handle, the rail after it, the handle.
    pub fn draw_with(&self, appearance: &Appearance, bounds: Rectangle) -> (fills: [Fill; 3])
        ensures
            ({
                let travel = bounds.width - handle_extent(appearance.handle.shape, bounds.height).0;
                let offset = offset_of(self@.value, self@.start, self@.end, travel);
                &&& fills[0] == rail_before(*appearance, offset, bounds)
                &&& fills[1] == rail_after(*appearance, offset, bounds)
                &&& fills[2] == handle_fill(*appearance, offset, bounds)
            }),
    {
        paint(appearance, self.value, self.range.start, self.range.end, bounds)
    }

    /// Draws the slider in the look that `theme` gives it for its present
    /// status.
    pub fn draw<Theme: DefaultStyle>(
        &self,
        state: &State,
        theme: &Theme,
        bounds: Rectangle,
        cursor: Cursor,
    ) -> (fills: [Fill; 3])
        ensures
            ({
                let appearance = theme.styled(status_of(*state, bounds, cursor));
                let travel = bounds.width - handle_extent(appearance.handle.shape, bounds.height).0;
                let offset = offset_of(self@.value, self@.start, self@.end, travel);
                &&& fills[0] == rail_before(appearance, offset, bounds)
                &&& fills[1] == rail_after(appearance, offset, bounds)
                &&& fills[2] == handle_fill(appearance, offset, bounds)
            }),
    {
        let appearance = theme.default_style(self.status(state, bounds, cursor));
        self.draw_with(&appearance, bounds)
    }

    /// How the pointer should look: grabbing during a drag, ready to grab
    /// while inside the bounds, as anywhere else otherwise.
    pub fn mouse_interaction(
        &self,
        state: &State,
        bounds: Rectangle,
        cursor: Cursor,
    ) -> (interaction: Interaction)
        ensures
            interaction == (match status_of(*state, bounds, cursor) {
                Status::Dragged => Interaction::Grabbing,
                Status::Hovered => Interaction::Grab,
                Status::Active => Interaction::Idle,
            }),
    {
        if state.is_dragging {
            Interaction::Grabbing
        } else if cursor.is_over(bounds) {
            Interaction::Grab
        } else {
            Interaction::Idle
        }
    }
}

} // verus!
