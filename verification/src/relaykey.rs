//! Relaying live key gestures to the focused application or to one process.
//!
//! A gesture pins its chord and destination when it begins, is repeated on
//! request, and is balanced when it ends. Gestures to a process carry the chord
//! on the main key alone; gestures to the focused application also press and
//! release the modifiers.

use vstd::prelude::*;

use crate::pick::{first_where, first_where_at, first_where_is_first, first_where_none};
use crate::text::text_eq;

verus! {

/// Why an event could not be posted.
#[derive(Debug, Clone, Copy)]
pub enum Error {
    /// No event source could be made.
    EventSource,
    /// No event could be made.
    EventCreate,
    /// A permission is missing.
    PermissionDenied(&'static str),
}

impl Error {
    /// The message of the error.
    pub fn describe(&self) -> (s: String)
        ensures
            s@ == (match *self {
                Error::EventSource => "Failed to create CGEventSource"@,
                Error::EventCreate => "Failed to create CGEvent"@,
                Error::PermissionDenied(what) => "Permission denied: "@ + what@,
            }),
    {
        match self {
            Error::EventSource => "Failed to create CGEventSource".to_owned(),
            Error::EventCreate => "Failed to create CGEvent".to_owned(),
            Error::PermissionDenied(what) => {
                let mut s = "Permission denied: ".to_owned();
                vstd::string::StringExecFns::append(&mut s, what);
                s
            },
        }
    }
}

/// The error to report when an event or its source could not be made: a missing
/// permission explains either.
pub fn creation_error(accessibility_ok: bool, source: bool) -> (r: Error)
    ensures
        !accessibility_ok ==> r == Error::PermissionDenied("Accessibility"),
        accessibility_ok && source ==> r is EventSource,
        accessibility_ok && !source ==> r is EventCreate,
{
    if !accessibility_ok {
        Error::PermissionDenied("Accessibility")
    } else if source {
        Error::EventSource
    } else {
        Error::EventCreate
    }
}

/// A physical key.
#[derive(Debug, Clone, Copy, PartialEq, Eq, Structural)]
pub struct Key {
    /// Virtual keycode.
    pub scancode: u16,
}

/// A modifier key, by side.
#[derive(Debug, Clone, Copy, PartialEq, Eq, Structural)]
pub enum Modifier {
    /// Left control.
    Control,
    /// Right control.
    RightControl,
    /// Left option.
    Option,
    /// Right option.
    RightOption,
    /// Left shift.
    Shift,
    /// Right shift.
    RightShift,
    /// Left command.
    Command,
    /// Right command.
    RightCommand,
}

impl Modifier {
    /// Virtual keycode of the modifier.
    pub open spec fn code(self) -> u16 {
        match self {
            Modifier::Control => 0x3B,
            Modifier::RightControl => 0x3E,
            Modifier::Option => 0x3A,
            Modifier::RightOption => 0x3D,
            Modifier::Shift => 0x38,
            Modifier::RightShift => 0x3C,
            Modifier::Command => 0x37,
            Modifier::RightCommand => 0x36,
        }
    }

    /// Virtual keycode of the modifier.
    pub fn keycode(self) -> (r: u16)
        ensures
            r == self.code(),
    {
        match self {
            Modifier::Control => 0x3B,
            Modifier::RightControl => 0x3E,
            Modifier::Option => 0x3A,
            Modifier::RightOption => 0x3D,
            Modifier::Shift => 0x38,
            Modifier::RightShift => 0x3C,
            Modifier::Command => 0x37,
            Modifier::RightCommand => 0x36,
        }
    }
}

/// A set of modifiers.
#[derive(Debug, Clone, Copy, PartialEq, Eq, Structural)]
pub struct Modifiers {
    /// Left control.
    pub control: bool,
    /// Right control.
    pub right_control: bool,
    /// Left option.
    pub option: bool,
    /// Right option.
    pub right_option: bool,
    /// Left shift.
    pub shift: bool,
    /// Right shift.
    pub right_shift: bool,
    /// Left command.
    pub command: bool,
    /// Right command.
    pub right_command: bool,
}

impl Modifiers {
    /// Whether the set holds a modifier.
    pub open spec fn has_modifier(self, m: Modifier) -> bool {
        match m {
            Modifier::Control => self.control,
            Modifier::RightControl => self.right_control,
            Modifier::Option => self.option,
            Modifier::RightOption => self.right_option,
            Modifier::Shift => self.shift,
            Modifier::RightShift => self.right_shift,
            Modifier::Command => self.command,
            Modifier::RightCommand => self.right_command,
        }
    }

    /// The empty set.
    pub fn none() -> (r: Self)
        ensures
            forall|m: Modifier| !#[trigger] r.has_modifier(m),
    {
        Modifiers {
            control: false,
            right_control: false,
            option: false,
            right_option: false,
            shift: false,
            right_shift: false,
            command: false,
            right_command: false,
        }
    }

    /// The set with one more modifier.
    pub fn with(self, m: Modifier) -> (r: Self)
        ensures
            forall|other: Modifier| #[trigger]
                r.has_modifier(other) <==> self.has_modifier(other) || other == m,
    {
        let mut set = self;
        match m {
            Modifier::Control => set.control = true,
            Modifier::RightControl => set.right_control = true,
            Modifier::Option => set.option = true,
            Modifier::RightOption => set.right_option = true,
            Modifier::Shift => set.shift = true,
            Modifier::RightShift => set.right_shift = true,
            Modifier::Command => set.command = true,
            Modifier::RightCommand => set.right_command = true,
        }
        set
    }

    /// Whether the set holds a modifier.
    pub fn contains(&self, m: Modifier) -> (r: bool)
        ensures
            r == self.has_modifier(m),
    {
        match m {
            Modifier::Control => self.control,
            Modifier::RightControl => self.right_control,
            Modifier::Option => self.option,
            Modifier::RightOption => self.right_option,
            Modifier::Shift => self.shift,
            Modifier::RightShift => self.right_shift,
            Modifier::Command => self.command,
            Modifier::RightCommand => self.right_command,
        }
    }
}

/// The order in which modifiers are pressed.
pub open spec fn press_order() -> Seq<Modifier> {
    seq![
        Modifier::Control,
        Modifier::RightControl,
        Modifier::Option,
        Modifier::RightOption,
        Modifier::Shift,
        Modifier::RightShift,
        Modifier::Command,
        Modifier::RightCommand,
    ]
}

/// The keycodes of those modifiers of a list that a set holds.
pub open spec fn codes_among(mods: Modifiers, order: Seq<Modifier>) -> Seq<u16>
    decreases order.len(),
{
    if order.len() == 0 {
        Seq::empty()
    } else if mods.has_modifier(order.last()) {
        codes_among(mods, order.drop_last()).push(order.last().code())
    } else {
        codes_among(mods, order.drop_last())
    }
}

fn push_code(codes: &mut Vec<u16>, mods: &Modifiers, m: Modifier, Ghost(done): Ghost<Seq<Modifier>>)
    requires
        old(codes)@ == codes_among(*mods, done),
    ensures
        final(codes)@ == codes_among(*mods, done.push(m)),
{
    proof {
        assert(done.push(m).drop_last() =~= done);
    }
    if mods.contains(m) {
        codes.push(m.keycode());
    }
}

/// The keycodes of a set of modifiers, in the order in which they are pressed.
pub fn mod_keycodes(mods: &Modifiers) -> (r: Vec<u16>)
    ensures
        r@ == codes_among(*mods, press_order()),
{
    let mut v: Vec<u16> = Vec::new();
    let ghost order = press_order();
    proof {
        assert(order.take(1) =~= Seq::empty().push(order[0]));
        assert(order.take(2) =~= order.take(1).push(order[1]));
        assert(order.take(3) =~= order.take(2).push(order[2]));
        assert(order.take(4) =~= order.take(3).push(order[3]));
        assert(order.take(5) =~= order.take(4).push(order[4]));
        assert(order.take(6) =~= order.take(5).push(order[5]));
        assert(order.take(7) =~= order.take(6).push(order[6]));
        assert(order =~= order.take(7).push(order[7]));
    }
    push_code(&mut v, mods, Modifier::Control, Ghost(Seq::empty()));
    push_code(&mut v, mods, Modifier::RightControl, Ghost(order.take(1)));
    push_code(&mut v, mods, Modifier::Option, Ghost(order.take(2)));
    push_code(&mut v, mods, Modifier::RightOption, Ghost(order.take(3)));
    push_code(&mut v, mods, Modifier::Shift, Ghost(order.take(4)));
    push_code(&mut v, mods, Modifier::RightShift, Ghost(order.take(5)));
    push_code(&mut v, mods, Modifier::Command, Ghost(order.take(6)));
    push_code(&mut v, mods, Modifier::RightCommand, Ghost(order.take(7)));
    v
}

/// The keycodes in the order in which they are pressed, or released: modifiers
/// are released in the reverse order.
pub fn modifier_events(mods: &Modifiers, down: bool) -> (r: Vec<u16>)
    ensures
        down ==> r@ == codes_among(*mods, press_order()),
        !down ==> r@ == codes_among(*mods, press_order()).reverse(),
{
    let codes = mod_keycodes(mods);
    if down {
        return codes;
    }
    let mut out: Vec<u16> = Vec::new();
    let mut i: usize = codes.len();
    while i > 0
        invariant
            i <= codes@.len(),
            out@ == codes@.reverse().take(codes@.len() - i),
        decreases i,
    {
        i = i - 1;
        out.push(codes[i]);
        assert(codes@.reverse().take(codes@.len() - i) =~= codes@.reverse().take(
            codes@.len() - i - 1,
        ).push(codes@[i as int]));
    }
    assert(codes@.reverse().take(codes@.len() as int) =~= codes@.reverse());
    out
}

/// A key with its modifiers.
#[derive(Debug, Clone, Copy, PartialEq, Eq, Structural)]
pub struct Chord {
    /// The main key.
    pub key: Key,
    /// The modifiers held with it.
    pub modifiers: Modifiers,
}

/// Where a gesture is delivered.
#[derive(Debug, Clone, Copy, PartialEq, Eq, Hash, Structural)]
pub enum RelayDestination {
    /// Through the event stream, to the focused application.
    Hid,
    /// Directly to one process, whatever is focused.
    Process(i32),
}

/// Whether an event carries the marker by which Hotki knows its own events: only
/// those that come back through the event stream need it.
pub fn needs_hotki_tag(destination: RelayDestination) -> (r: bool)
    ensures
        r <==> destination is Hid,
{
    matches!(destination, RelayDestination::Hid)
}

/// An event handed to a poster.
#[derive(Debug, Clone, Copy, PartialEq, Eq, Structural)]
pub enum Posted {
    /// Modifiers pressed or released.
    Modifiers(Modifiers, bool, RelayDestination),
    /// Main key pressed, at first or as a repeat.
    Down(Chord, bool, RelayDestination),
    /// Main key released.
    Up(Chord, RelayDestination),
}

/// A way of posting events.
///
/// A poster keeps the events that it was handed, whether or not posting them
/// worked. What is proved of relayed keys holds for posters that do so.
pub trait Poster: Sized {
    /// The events handed over so far. Every poster has to say what they are: with the
    /// default, which stays empty, no method can add one as it promises.
    open spec fn posted(&self) -> Seq<Posted> {
        Seq::empty()
    }

    /// Post the press of a key.
    fn post_down(&mut self, key: &Chord, is_repeat: bool, destination: RelayDestination) -> (r:
        Result<(), Error>)
        ensures
            final(self).posted() == old(self).posted().push(
                Posted::Down(*key, is_repeat, destination),
            ),
    ;

    /// Post the release of a key.
    fn post_up(&mut self, key: &Chord, destination: RelayDestination) -> (r: Result<(), Error>)
        ensures
            final(self).posted() == old(self).posted().push(Posted::Up(*key, destination)),
    ;

    /// Post the press or the release of modifiers.
    fn post_modifiers(&mut self, mods: &Modifiers, down: bool, destination: RelayDestination) -> (r:
        Result<(), Error>)
        ensures
            final(self).posted() == old(self).posted().push(
                Posted::Modifiers(*mods, down, destination),
            ),
    ;
}

/// A poster that records events and posts none.
#[derive(Debug)]
pub struct RecordingPoster {
    events: Vec<Posted>,
}

impl RecordingPoster {
    /// A recorder without events.
    pub fn new() -> (r: Self)
        ensures
            r.posted() == Seq::<Posted>::empty(),
    {
        RecordingPoster { events: Vec::new() }
    }

    /// The events recorded so far.
    pub fn events(&self) -> (r: &[Posted])
        ensures
            r@ == self.posted(),
    {
        self.events.as_slice()
    }
}

impl Poster for RecordingPoster {
    closed spec fn posted(&self) -> Seq<Posted> {
        self.events@
    }

    fn post_down(&mut self, key: &Chord, is_repeat: bool, destination: RelayDestination) -> (r:
        Result<(), Error>)
        ensures
            r is Ok,
    {
        self.events.push(Posted::Down(*key, is_repeat, destination));
        Ok(())
    }

    fn post_up(&mut self, key: &Chord, destination: RelayDestination) -> (r: Result<(), Error>)
        ensures
            r is Ok,
    {
        self.events.push(Posted::Up(*key, destination));
        Ok(())
    }

    fn post_modifiers(&mut self, mods: &Modifiers, down: bool, destination: RelayDestination) -> (r:
        Result<(), Error>)
        ensures
            r is Ok,
    {
        self.events.push(Posted::Modifiers(*mods, down, destination));
        Ok(())
    }
}

/// Chord and destination of an active gesture.
#[derive(Debug, Clone, Copy, PartialEq, Eq, Structural)]
pub struct ActiveGesture {
    /// The chord that the gesture began with.
    pub chord: Chord,
    /// The destination that the gesture began with.
    pub destination: RelayDestination,
}

/// What pressing a chord posts.
pub open spec fn down_posts(
    chord: Chord,
    is_repeat: bool,
    destination: RelayDestination,
) -> Seq<Posted> {
    if !is_repeat && destination is Hid {
        seq![
            Posted::Modifiers(chord.modifiers, true, destination),
            Posted::Down(chord, is_repeat, destination),
        ]
    } else {
        seq![Posted::Down(chord, is_repeat, destination)]
    }
}

/// What releasing a chord posts.
pub open spec fn up_posts(chord: Chord, destination: RelayDestination) -> Seq<Posted> {
    if destination is Hid {
        seq![
            Posted::Up(chord, destination),
            Posted::Modifiers(chord.modifiers, false, destination),
        ]
    } else {
        seq![Posted::Up(chord, destination)]
    }
}

/// What releasing a series of gestures posts.
pub open spec fn release_posts(gestures: Seq<(Seq<char>, ActiveGesture)>) -> Seq<Posted>
    decreases gestures.len(),
{
    if gestures.len() == 0 {
        Seq::empty()
    } else {
        release_posts(gestures.drop_last()) + up_posts(
            gestures.last().1.chord,
            gestures.last().1.destination,
        )
    }
}

/// The gestures of a relay and the events that it has posted.
pub struct RelayView {
    /// Active gestures by their identifiers, oldest first.
    pub active: Seq<(Seq<char>, ActiveGesture)>,
    /// Events posted so far; none when the relay is disabled.
    pub posted: Seq<Posted>,
    /// Whether events are posted at all.
    pub enabled: bool,
}

/// Whether a gesture has an identifier.
pub open spec fn named(id: Seq<char>) -> spec_fn((Seq<char>, ActiveGesture)) -> bool {
    |g: (Seq<char>, ActiveGesture)| g.0 == id
}

/// Position of a gesture.
pub open spec fn gesture_at(
    active: Seq<(Seq<char>, ActiveGesture)>,
    id: Seq<char>,
) -> Option<int> {
    first_where(active, named(id))
}

impl RelayView {
    /// Whether no identifier occurs twice.
    pub open spec fn distinct_ids(self) -> bool {
        forall|i: int, j: int|
            0 <= i < j < self.active.len() ==> (#[trigger] self.active[i]).0
                != (#[trigger] self.active[j]).0
    }

    /// The events with more posted, if the relay is enabled.
    pub open spec fn posting(self, more: Seq<Posted>) -> RelayView {
        if self.enabled {
            RelayView { posted: self.posted + more, ..self }
        } else {
            self
        }
    }

    /// The relay after a gesture has begun: one of the same identifier is
    /// balanced first.
    pub open spec fn begun(self, id: Seq<char>, gesture: ActiveGesture) -> RelayView {
        let freed = self.ended(id);
        let posted = freed.posting(down_posts(gesture.chord, false, gesture.destination));
        RelayView { active: posted.active.push((id, gesture)), ..posted }
    }

    /// The relay after a repeat: the pinned chord goes to the pinned destination.
    pub open spec fn repeated(self, id: Seq<char>) -> RelayView {
        match gesture_at(self.active, id) {
            Some(i) => self.posting(
                down_posts(self.active[i].1.chord, true, self.active[i].1.destination),
            ),
            None => self,
        }
    }

    /// The relay after a gesture has ended.
    pub open spec fn ended(self, id: Seq<char>) -> RelayView {
        match gesture_at(self.active, id) {
            Some(i) => {
                let gesture = self.active[i].1;
                let posted = self.posting(up_posts(gesture.chord, gesture.destination));
                RelayView { active: posted.active.remove(i), ..posted }
            },
            None => self,
        }
    }

    /// The relay after every gesture has ended.
    pub open spec fn released(self) -> RelayView {
        let posted = self.posting(release_posts(self.active));
        RelayView { active: Seq::empty(), ..posted }
    }
}

/// A relay of key gestures.
pub struct RelayKey<P> {
    active: Vec<(String, ActiveGesture)>,
    poster: Option<P>,
}

/// The gestures, with their identifiers as text.
pub open spec fn gestures(active: Seq<(String, ActiveGesture)>) -> Seq<
    (Seq<char>, ActiveGesture),
> {
    Seq::new(active.len(), |i: int| (active[i].0@, active[i].1))
}

impl<P: Poster> View for RelayKey<P> {
    type V = RelayView;

    closed spec fn view(&self) -> RelayView {
        RelayView {
            active: gestures(self.active@),
            posted: match self.poster {
                Some(poster) => poster.posted(),
                None => Seq::empty(),
            },
            enabled: self.poster is Some,
        }
    }
}

/// Post the press of a chord, modifiers included where the destination wants
/// them. A failure to post is passed over.
fn post_down<P: Poster>(
    poster: &mut P,
    chord: &Chord,
    is_repeat: bool,
    destination: RelayDestination,
)
    ensures
        final(poster).posted() == old(poster).posted() + down_posts(
            *chord,
            is_repeat,
            destination,
        ),
{
    if !is_repeat && matches!(destination, RelayDestination::Hid) {
        let _ = poster.post_modifiers(&chord.modifiers, true, destination);
    }
    let _ = poster.post_down(chord, is_repeat, destination);
    assert(poster.posted() =~= old(poster).posted() + down_posts(*chord, is_repeat, destination));
}

/// Post the release of a chord, modifiers included where the destination wants
/// them. A failure to post is passed over.
fn post_up<P: Poster>(poster: &mut P, chord: &Chord, destination: RelayDestination)
    ensures
        final(poster).posted() == old(poster).posted() + up_posts(*chord, destination),
{
    let _ = poster.post_up(chord, destination);
    if matches!(destination, RelayDestination::Hid) {
        let _ = poster.post_modifiers(&chord.modifiers, false, destination);
    }
    assert(poster.posted() =~= old(poster).posted() + up_posts(*chord, destination));
}

impl<P: Poster> RelayKey<P> {
    /// A relay that posts through `poster`, without gestures.
    pub fn new(poster: P) -> (r: Self)
        ensures
            r@.active == Seq::<(Seq<char>, ActiveGesture)>::empty(),
            r@.posted == poster.posted(),
            r@.enabled,
            r@.distinct_ids(),
    {
        let r = RelayKey { active: Vec::new(), poster: Some(poster) };
        assert(r@.active =~= Seq::empty());
        r
    }

    /// A relay that keeps track of gestures and posts nothing.
    pub fn disabled() -> (r: Self)
        ensures
            r@.active == Seq::<(Seq<char>, ActiveGesture)>::empty(),
            r@.posted == Seq::<Posted>::empty(),
            !r@.enabled,
            r@.distinct_ids(),
    {
        let r = RelayKey { active: Vec::new(), poster: None };
        assert(r@.active =~= Seq::empty());
        r
    }

    /// The poster, when the relay is enabled.
    pub fn poster(&self) -> (r: Option<&P>)
        ensures
            r is Some == self@.enabled,
            r matches Some(poster) ==> poster.posted() == self@.posted,
    {
        match &self.poster {
            Some(poster) => Some(poster),
            None => None,
        }
    }

    fn position(&self, id: &str) -> (r: Option<usize>)
        ensures
            match r {
                Some(i) => gesture_at(self@.active, id@) == Some(i as int) && i
                    < self.active@.len(),
                None => gesture_at(self@.active, id@) is None,
            },
    {
        let mut i: usize = 0;
        while i < self.active.len()
            invariant
                i <= self.active@.len(),
                forall|j: int| 0 <= j < i ==> !named(id@)(#[trigger] self@.active[j]),
            decreases self.active@.len() - i,
        {
            if text_eq(self.active[i].0.as_str(), id) {
                proof {
                    first_where_at(self@.active, named(id@), i as int);
                }
                return Some(i);
            }
            assert(self@.active[i as int].0 == self.active@[i as int].0@);
            i = i + 1;
        }
        proof {
            first_where_none(self@.active, named(id@));
        }
        None
    }

    /// Begin a gesture, and pin its chord and destination.
    pub fn begin(&mut self, id: String, chord: Chord, destination: RelayDestination)
        requires
            old(self)@.distinct_ids(),
        ensures
            final(self)@ == old(self)@.begun(id@, ActiveGesture { chord, destination }),
            final(self)@.distinct_ids(),
            follows_gestures(old(self)@, final(self)@),
    {
        let _ = self.end(id.as_str());
        if let Some(poster) = &mut self.poster {
            post_down(poster, &chord, false, destination);
        }
        let ghost before = self.active@;
        let gesture = ActiveGesture { chord, destination };
        self.active.push((id, gesture));
        proof {
            assert(gestures(self.active@) =~= gestures(before).push((id@, gesture)));
            begin_keeps_ids_distinct(old(self)@, id@, gesture);
            beginning_follows_gestures(old(self)@, id@, gesture);
        }
    }

    /// Repeat a gesture. Returns whether it is active.
    pub fn repeat(&mut self, id: &str) -> (r: bool)
        ensures
            r == gesture_at(old(self)@.active, id@) is Some,
            final(self)@ == old(self)@.repeated(id@),
            final(self)@.active == old(self)@.active,
            follows_gestures(old(self)@, final(self)@),
    {
        proof {
            repeating_follows_gestures(self@, id@);
        }
        match self.position(id) {
            Some(i) => {
                let gesture = self.active[i].1;
                if let Some(poster) = &mut self.poster {
                    post_down(poster, &gesture.chord, true, gesture.destination);
                }
                true
            },
            None => false,
        }
    }

    /// End a gesture. Returns whether it was active.
    pub fn end(&mut self, id: &str) -> (r: bool)
        ensures
            r == gesture_at(old(self)@.active, id@) is Some,
            final(self)@ == old(self)@.ended(id@),
            old(self)@.distinct_ids() ==> final(self)@.distinct_ids(),
            old(self)@.distinct_ids() ==> gesture_at(final(self)@.active, id@) is None,
            follows_gestures(old(self)@, final(self)@),
    {
        proof {
            ending_follows_gestures(self@, id@);
        }
        match self.position(id) {
            Some(i) => {
                let ghost before = self.active@;
                let (_, gesture) = self.active.remove(i);
                if let Some(poster) = &mut self.poster {
                    post_up(poster, &gesture.chord, gesture.destination);
                }
                proof {
                    assert(gestures(self.active@) =~= gestures(before).remove(i as int));
                    end_keeps_ids_distinct(old(self)@, id@);
                }
                true
            },
            None => false,
        }
    }

    /// End every gesture, oldest first. A failure to post one does not keep the
    /// others from being released.
    pub fn release_all(&mut self)
        ensures
            final(self)@ == old(self)@.released(),
            final(self)@.distinct_ids(),
            final(self)@.active.len() == 0,
            follows_gestures(old(self)@, final(self)@),
    {
        proof {
            releasing_follows_gestures(self@);
        }
        if let Some(poster) = &mut self.poster {
            let mut i: usize = 0;
            let ghost posted0 = poster.posted();
            while i < self.active.len()
                invariant
                    i <= self.active@.len(),
                    poster.posted() == posted0 + release_posts(
                        gestures(self.active@).take(i as int),
                    ),
                decreases self.active@.len() - i,
            {
                let gesture = self.active[i].1;
                post_up(poster, &gesture.chord, gesture.destination);
                proof {
                    let upto = gestures(self.active@).take(i + 1);
                    assert(upto.drop_last() =~= gestures(self.active@).take(i as int));
                    assert(upto.last().1 == self.active@[i as int].1);
                    assert(poster.posted() =~= posted0 + release_posts(upto));
                }
                i = i + 1;
            }
            assert(gestures(self.active@).take(i as int) =~= gestures(self.active@));
        }
        self.active.clear();
        assert(gestures(self.active@) =~= Seq::empty());
    }
}

/// A relay with several owners: its gestures are released when the last owner drops
/// it.
pub struct SharedRelay<P: Poster> {
    /// The relay.
    pub relay: RelayKey<P>,
    /// How many owners there are.
    pub owners: usize,
}

impl<P: Poster> SharedRelay<P> {
    /// A relay with one owner.
    pub fn new(relay: RelayKey<P>) -> (r: Self)
        ensures
            r.relay == relay,
            r.owners == 1,
    {
        SharedRelay { relay, owners: 1 }
    }

    /// One more owner.
    pub fn share(&mut self)
        requires
            old(self).owners < usize::MAX,
        ensures
            final(self).relay == old(self).relay,
            final(self).owners == old(self).owners + 1,
    {
        self.owners = self.owners + 1;
    }

    /// One owner less. Only the last one to go releases the gestures.
    pub fn drop_owner(&mut self)
        requires
            old(self).owners > 0,
        ensures
            final(self).owners == old(self).owners - 1,
            final(self).relay@ == if old(self).owners == 1 {
                old(self).relay@.released()
            } else {
                old(self).relay@
            },
            old(self).owners == 1 ==> final(self).relay@.active.len() == 0,
            follows_gestures(old(self).relay@, final(self).relay@),
    {
        self.owners = self.owners - 1;
        if self.owners == 0 {
            self.relay.release_all();
        }
    }
}

proof fn end_keeps_ids_distinct(v: RelayView, id: Seq<char>)
    ensures
        v.distinct_ids() ==> v.ended(id).distinct_ids(),
        v.distinct_ids() ==> gesture_at(v.ended(id).active, id) is None,
{
    let named = named(id);
    first_where_is_first(v.active, named);
    if v.distinct_ids() {
        match gesture_at(v.active, id) {
            Some(k) => {
                let rest = v.active.remove(k);
                assert forall|j: int| 0 <= j < rest.len() implies !named(#[trigger] rest[j]) by {
                    if j < k {
                        assert(rest[j] == v.active[j]);
                    } else {
                        assert(rest[j] == v.active[j + 1]);
                        assert(v.active[k].0 != v.active[j + 1].0);
                    }
                }
                first_where_none(rest, named);
                assert forall|i: int, j: int| 0 <= i < j < rest.len() implies (
                #[trigger] rest[i]).0 != (#[trigger] rest[j]).0 by {
                    let a = if i < k {
                        i
                    } else {
                        i + 1
                    };
                    let b = if j < k {
                        j
                    } else {
                        j + 1
                    };
                    assert(rest[i] == v.active[a] && rest[j] == v.active[b]);
                }
            },
            None => {},
        }
    }
}

proof fn begin_keeps_ids_distinct(v: RelayView, id: Seq<char>, gesture: ActiveGesture)
    requires
        v.distinct_ids(),
    ensures
        v.begun(id, gesture).distinct_ids(),
{
    end_keeps_ids_distinct(v, id);
    let named = named(id);
    let freed = v.ended(id);
    first_where_is_first(freed.active, named);
    let now = v.begun(id, gesture);
    assert forall|i: int, j: int| 0 <= i < j < now.active.len() implies (#[trigger] now.active[i]).0
        != (#[trigger] now.active[j]).0 by {
        if j == freed.active.len() {
            assert(!named(freed.active[i]));
        }
    }
}

/// First presses less releases of main keys.
pub open spec fn keys_held(posted: Seq<Posted>) -> int
    decreases posted.len(),
{
    if posted.len() == 0 {
        0
    } else {
        keys_held(posted.drop_last()) + match posted.last() {
            Posted::Down(_, is_repeat, _) => if is_repeat {
                0int
            } else {
                1int
            },
            Posted::Up(_, _) => -1int,
            Posted::Modifiers(_, _, _) => 0int,
        }
    }
}

/// Presses less releases of modifiers.
pub open spec fn modifiers_held(posted: Seq<Posted>) -> int
    decreases posted.len(),
{
    if posted.len() == 0 {
        0
    } else {
        modifiers_held(posted.drop_last()) + match posted.last() {
            Posted::Modifiers(_, down, _) => if down {
                1int
            } else {
                -1int
            },
            _ => 0int,
        }
    }
}

/// How many gestures go through the event stream.
pub open spec fn hid_gestures(active: Seq<(Seq<char>, ActiveGesture)>) -> int
    decreases active.len(),
{
    if active.len() == 0 {
        0
    } else {
        hid_gestures(active.drop_last()) + if active.last().1.destination is Hid {
            1int
        } else {
            0int
        }
    }
}

/// Whether every press is matched by a release or by an active gesture.
pub open spec fn balanced(v: RelayView) -> bool {
    v.enabled ==> {
        &&& keys_held(v.posted) == v.active.len()
        &&& modifiers_held(v.posted) == hid_gestures(v.active)
    }
}

proof fn held_concat(a: Seq<Posted>, b: Seq<Posted>)
    ensures
        keys_held(a + b) == keys_held(a) + keys_held(b),
        modifiers_held(a + b) == modifiers_held(a) + modifiers_held(b),
    decreases b.len(),
{
    if b.len() == 0 {
        assert(a + b =~= a);
    } else {
        assert((a + b).drop_last() =~= a + b.drop_last());
        assert((a + b).last() == b.last());
        held_concat(a, b.drop_last());
    }
}

proof fn down_posts_held(chord: Chord, is_repeat: bool, destination: RelayDestination)
    ensures
        keys_held(down_posts(chord, is_repeat, destination)) == if is_repeat {
            0int
        } else {
            1int
        },
        modifiers_held(down_posts(chord, is_repeat, destination)) == if !is_repeat
            && destination is Hid {
            1int
        } else {
            0int
        },
{
    reveal_with_fuel(keys_held, 3);
    reveal_with_fuel(modifiers_held, 3);
    let posts = down_posts(chord, is_repeat, destination);
    if !is_repeat && destination is Hid {
        assert(posts.drop_last() =~= seq![posts[0]]);
        assert(posts.drop_last().drop_last() =~= Seq::empty());
    } else {
        assert(posts.drop_last() =~= Seq::empty());
    }
}

proof fn up_posts_held(chord: Chord, destination: RelayDestination)
    ensures
        keys_held(up_posts(chord, destination)) == -1,
        modifiers_held(up_posts(chord, destination)) == if destination is Hid {
            -1int
        } else {
            0int
        },
{
    reveal_with_fuel(keys_held, 3);
    reveal_with_fuel(modifiers_held, 3);
    let posts = up_posts(chord, destination);
    if destination is Hid {
        assert(posts.drop_last() =~= seq![posts[0]]);
        assert(posts.drop_last().drop_last() =~= Seq::empty());
    } else {
        assert(posts.drop_last() =~= Seq::empty());
    }
}

proof fn hid_gestures_remove(active: Seq<(Seq<char>, ActiveGesture)>, i: int)
    requires
        0 <= i < active.len(),
    ensures
        hid_gestures(active.remove(i)) == hid_gestures(active) - if active[i].1.destination is Hid {
            1int
        } else {
            0int
        },
    decreases active.len(),
{
    if i == active.len() - 1 {
        assert(active.remove(i) =~= active.drop_last());
    } else {
        hid_gestures_remove(active.drop_last(), i);
        assert(active.remove(i).drop_last() =~= active.drop_last().remove(i));
        assert(active.remove(i).last() == active.last());
    }
}

proof fn release_posts_held(active: Seq<(Seq<char>, ActiveGesture)>)
    ensures
        keys_held(release_posts(active)) == -active.len(),
        modifiers_held(release_posts(active)) == -hid_gestures(active),
    decreases active.len(),
{
    if active.len() > 0 {
        let last = active.last().1;
        release_posts_held(active.drop_last());
        held_concat(release_posts(active.drop_last()), up_posts(last.chord, last.destination));
        up_posts_held(last.chord, last.destination);
    }
}

/// Ending a gesture keeps presses and releases balanced.
pub proof fn ending_keeps_balance(v: RelayView, id: Seq<char>)
    requires
        balanced(v),
    ensures
        balanced(v.ended(id)),
{
    first_where_is_first(v.active, named(id));
    if let Some(i) = gesture_at(v.active, id) {
        let gesture = v.active[i].1;
        held_concat(v.posted, up_posts(gesture.chord, gesture.destination));
        up_posts_held(gesture.chord, gesture.destination);
        hid_gestures_remove(v.active, i);
    }
}

/// Beginning a gesture keeps presses and releases balanced, also when it takes
/// the place of another.
pub proof fn beginning_keeps_balance(v: RelayView, id: Seq<char>, gesture: ActiveGesture)
    requires
        balanced(v),
    ensures
        balanced(v.begun(id, gesture)),
{
    ending_keeps_balance(v, id);
    let freed = v.ended(id);
    held_concat(freed.posted, down_posts(gesture.chord, false, gesture.destination));
    down_posts_held(gesture.chord, false, gesture.destination);
    assert(freed.active.push((id, gesture)).drop_last() =~= freed.active);
}

/// Repeating a gesture keeps presses and releases balanced.
pub proof fn repeating_keeps_balance(v: RelayView, id: Seq<char>)
    requires
        balanced(v),
    ensures
        balanced(v.repeated(id)),
{
    if let Some(i) = gesture_at(v.active, id) {
        let gesture = v.active[i].1;
        held_concat(v.posted, down_posts(gesture.chord, true, gesture.destination));
        down_posts_held(gesture.chord, true, gesture.destination);
    }
}

/// Releasing everything keeps presses and releases balanced: afterwards no key
/// and no modifier is held.
pub proof fn releasing_leaves_nothing_held(v: RelayView)
    requires
        balanced(v),
    ensures
        balanced(v.released()),
        v.enabled ==> keys_held(v.released().posted) == 0 && modifiers_held(v.released().posted)
            == 0,
{
    held_concat(v.posted, release_posts(v.active));
    release_posts_held(v.active);
}

/// First presses of a chord at a destination, less its releases there.
pub open spec fn presses_of(posted: Seq<Posted>, chord: Chord, destination: RelayDestination) -> int
    decreases posted.len(),
{
    if posted.len() == 0 {
        0
    } else {
        presses_of(posted.drop_last(), chord, destination) + if posted.last() == Posted::Down(
            chord,
            false,
            destination,
        ) {
            1int
        } else if posted.last() == Posted::Up(chord, destination) {
            -1int
        } else {
            0int
        }
    }
}

/// Presses of a set of modifiers at a destination, less its releases there.
pub open spec fn modifier_presses_of(
    posted: Seq<Posted>,
    mods: Modifiers,
    destination: RelayDestination,
) -> int
    decreases posted.len(),
{
    if posted.len() == 0 {
        0
    } else {
        modifier_presses_of(posted.drop_last(), mods, destination) + if posted.last()
            == Posted::Modifiers(mods, true, destination) {
            1int
        } else if posted.last() == Posted::Modifiers(mods, false, destination) {
            -1int
        } else {
            0int
        }
    }
}

/// How many gestures hold a chord at a destination.
pub open spec fn gestures_with(
    active: Seq<(Seq<char>, ActiveGesture)>,
    chord: Chord,
    destination: RelayDestination,
) -> int
    decreases active.len(),
{
    if active.len() == 0 {
        0
    } else {
        gestures_with(active.drop_last(), chord, destination) + if active.last().1.chord == chord
            && active.last().1.destination == destination {
            1int
        } else {
            0int
        }
    }
}

/// How many gestures hold a set of modifiers at a destination: only those that go through
/// the event stream hold any.
pub open spec fn gestures_holding(
    active: Seq<(Seq<char>, ActiveGesture)>,
    mods: Modifiers,
    destination: RelayDestination,
) -> int
    decreases active.len(),
{
    if active.len() == 0 {
        0
    } else {
        gestures_holding(active.drop_last(), mods, destination) + if destination is Hid
            && active.last().1.destination is Hid && active.last().1.chord.modifiers == mods {
            1int
        } else {
            0int
        }
    }
}

/// Whether what was posted follows the gestures, key by key: of every chord and every
/// destination as many more presses than releases were posted as there are more gestures
/// that hold it there, and the same holds of every set of modifiers. A disabled relay
/// posts nothing.
pub open spec fn follows_gestures(before: RelayView, after: RelayView) -> bool {
    &&& after.enabled == before.enabled
    &&& !before.enabled ==> after.posted == before.posted
    &&& before.enabled ==> {
        &&& forall|chord: Chord, destination: RelayDestination| #[trigger]
            presses_of(after.posted, chord, destination) - presses_of(
                before.posted,
                chord,
                destination,
            ) == gestures_with(after.active, chord, destination) - gestures_with(
                before.active,
                chord,
                destination,
            )
        &&& forall|mods: Modifiers, destination: RelayDestination| #[trigger]
            modifier_presses_of(after.posted, mods, destination) - modifier_presses_of(
                before.posted,
                mods,
                destination,
            ) == gestures_holding(after.active, mods, destination) - gestures_holding(
                before.active,
                mods,
                destination,
            )
    }
}

proof fn presses_concat(
    a: Seq<Posted>,
    b: Seq<Posted>,
    chord: Chord,
    mods: Modifiers,
    destination: RelayDestination,
)
    ensures
        presses_of(a + b, chord, destination) == presses_of(a, chord, destination) + presses_of(
            b,
            chord,
            destination,
        ),
        modifier_presses_of(a + b, mods, destination) == modifier_presses_of(a, mods, destination)
            + modifier_presses_of(b, mods, destination),
    decreases b.len(),
{
    if b.len() == 0 {
        assert(a + b =~= a);
    } else {
        assert((a + b).drop_last() =~= a + b.drop_last());
        assert((a + b).last() == b.last());
        presses_concat(a, b.drop_last(), chord, mods, destination);
    }
}

proof fn posts_of_one(
    g: ActiveGesture,
    id: Seq<char>,
    chord: Chord,
    mods: Modifiers,
    destination: RelayDestination,
)
    ensures
        ({
            let one = seq![(id, g)];
            let first = down_posts(g.chord, false, g.destination);
            let again = down_posts(g.chord, true, g.destination);
            let up = up_posts(g.chord, g.destination);
            &&& presses_of(first, chord, destination) == gestures_with(one, chord, destination)
            &&& presses_of(again, chord, destination) == 0
            &&& presses_of(up, chord, destination) == -gestures_with(one, chord, destination)
            &&& modifier_presses_of(first, mods, destination) == gestures_holding(
                one,
                mods,
                destination,
            )
            &&& modifier_presses_of(again, mods, destination) == 0
            &&& modifier_presses_of(up, mods, destination) == -gestures_holding(
                one,
                mods,
                destination,
            )
        }),
{
    reveal_with_fuel(presses_of, 3);
    reveal_with_fuel(modifier_presses_of, 3);
    reveal_with_fuel(gestures_with, 2);
    reveal_with_fuel(gestures_holding, 2);
    let one = seq![(id, g)];
    let first = down_posts(g.chord, false, g.destination);
    let again = down_posts(g.chord, true, g.destination);
    let up = up_posts(g.chord, g.destination);
    assert(one.drop_last() =~= Seq::empty());
    assert(again.drop_last() =~= Seq::empty());
    if g.destination is Hid {
        assert(first.drop_last() =~= seq![first[0]]);
        assert(first.drop_last().drop_last() =~= Seq::empty());
        assert(up.drop_last() =~= seq![up[0]]);
        assert(up.drop_last().drop_last() =~= Seq::empty());
    } else {
        assert(first.drop_last() =~= Seq::empty());
        assert(up.drop_last() =~= Seq::empty());
    }
}

proof fn gestures_without_one(
    active: Seq<(Seq<char>, ActiveGesture)>,
    i: int,
    chord: Chord,
    mods: Modifiers,
    destination: RelayDestination,
)
    requires
        0 <= i < active.len(),
    ensures
        ({
            let one = seq![(active[i].0, active[i].1)];
            &&& gestures_with(active.remove(i), chord, destination) == gestures_with(
                active,
                chord,
                destination,
            ) - gestures_with(one, chord, destination)
            &&& gestures_holding(active.remove(i), mods, destination) == gestures_holding(
                active,
                mods,
                destination,
            ) - gestures_holding(one, mods, destination)
        }),
    decreases active.len(),
{
    reveal_with_fuel(gestures_with, 2);
    reveal_with_fuel(gestures_holding, 2);
    let one = seq![(active[i].0, active[i].1)];
    assert(one.drop_last() =~= Seq::empty());
    if i == active.len() - 1 {
        assert(active.remove(i) =~= active.drop_last());
    } else {
        gestures_without_one(active.drop_last(), i, chord, mods, destination);
        assert(active.remove(i).drop_last() =~= active.drop_last().remove(i));
        assert(active.remove(i).last() == active.last());
    }
}

proof fn release_posts_of_each(
    active: Seq<(Seq<char>, ActiveGesture)>,
    chord: Chord,
    mods: Modifiers,
    destination: RelayDestination,
)
    ensures
        presses_of(release_posts(active), chord, destination) == -gestures_with(
            active,
            chord,
            destination,
        ),
        modifier_presses_of(release_posts(active), mods, destination) == -gestures_holding(
            active,
            mods,
            destination,
        ),
    decreases active.len(),
{
    if active.len() > 0 {
        let last = active.last();
        release_posts_of_each(active.drop_last(), chord, mods, destination);
        presses_concat(
            release_posts(active.drop_last()),
            up_posts(last.1.chord, last.1.destination),
            chord,
            mods,
            destination,
        );
        posts_of_one(last.1, last.0, chord, mods, destination);
        gestures_without_one(active, active.len() - 1, chord, mods, destination);
        assert(active.remove(active.len() - 1) =~= active.drop_last());
    }
}

/// Ending a gesture releases its chord and its modifiers where they were pressed, and
/// nothing else.
pub proof fn ending_follows_gestures(v: RelayView, id: Seq<char>)
    ensures
        follows_gestures(v, v.ended(id)),
{
    first_where_is_first(v.active, named(id));
    let after = v.ended(id);
    if let Some(i) = gesture_at(v.active, id) {
        let g = v.active[i].1;
        let up = up_posts(g.chord, g.destination);
        assert forall|chord: Chord, destination: RelayDestination| v.enabled implies #[trigger]
        presses_of(after.posted, chord, destination) - presses_of(v.posted, chord, destination)
            == gestures_with(after.active, chord, destination) - gestures_with(
            v.active,
            chord,
            destination,
        ) by {
            presses_concat(v.posted, up, chord, g.chord.modifiers, destination);
            posts_of_one(g, v.active[i].0, chord, g.chord.modifiers, destination);
            gestures_without_one(v.active, i, chord, g.chord.modifiers, destination);
        }
        assert forall|mods: Modifiers, destination: RelayDestination| v.enabled implies #[trigger]
        modifier_presses_of(after.posted, mods, destination) - modifier_presses_of(
            v.posted,
            mods,
            destination,
        ) == gestures_holding(after.active, mods, destination) - gestures_holding(
            v.active,
            mods,
            destination,
        ) by {
            presses_concat(v.posted, up, g.chord, mods, destination);
            posts_of_one(g, v.active[i].0, g.chord, mods, destination);
            gestures_without_one(v.active, i, g.chord, mods, destination);
        }
    }
}

/// Beginning a gesture presses its chord and its modifiers once where it is delivered,
/// after what it takes the place of has been released.
pub proof fn beginning_follows_gestures(v: RelayView, id: Seq<char>, gesture: ActiveGesture)
    ensures
        follows_gestures(v, v.begun(id, gesture)),
{
    ending_follows_gestures(v, id);
    let freed = v.ended(id);
    let after = v.begun(id, gesture);
    let down = down_posts(gesture.chord, false, gesture.destination);
    let last = freed.active.len() as int;
    assert(after.active.remove(last) =~= freed.active);
    if v.enabled {
        assert forall|chord: Chord, destination: RelayDestination| #[trigger]
            presses_of(after.posted, chord, destination) - presses_of(v.posted, chord, destination)
                == gestures_with(after.active, chord, destination) - gestures_with(
                v.active,
                chord,
                destination,
            ) by {
            presses_concat(freed.posted, down, chord, gesture.chord.modifiers, destination);
            posts_of_one(gesture, id, chord, gesture.chord.modifiers, destination);
            gestures_without_one(after.active, last, chord, gesture.chord.modifiers, destination);
            assert(presses_of(freed.posted, chord, destination) - presses_of(
                v.posted,
                chord,
                destination,
            ) == gestures_with(freed.active, chord, destination) - gestures_with(
                v.active,
                chord,
                destination,
            ));
        }
        assert forall|mods: Modifiers, destination: RelayDestination| #[trigger]
            modifier_presses_of(after.posted, mods, destination) - modifier_presses_of(
                v.posted,
                mods,
                destination,
            ) == gestures_holding(after.active, mods, destination) - gestures_holding(
                v.active,
                mods,
                destination,
            ) by {
            presses_concat(freed.posted, down, gesture.chord, mods, destination);
            posts_of_one(gesture, id, gesture.chord, mods, destination);
            gestures_without_one(after.active, last, gesture.chord, mods, destination);
            assert(modifier_presses_of(freed.posted, mods, destination) - modifier_presses_of(
                v.posted,
                mods,
                destination,
            ) == gestures_holding(freed.active, mods, destination) - gestures_holding(
                v.active,
                mods,
                destination,
            ));
        }
    }
}

/// Repeating a gesture presses and releases nothing anew.
pub proof fn repeating_follows_gestures(v: RelayView, id: Seq<char>)
    ensures
        follows_gestures(v, v.repeated(id)),
{
    let after = v.repeated(id);
    if let Some(i) = gesture_at(v.active, id) {
        let g = v.active[i].1;
        let again = down_posts(g.chord, true, g.destination);
        assert forall|chord: Chord, destination: RelayDestination| v.enabled implies #[trigger]
        presses_of(after.posted, chord, destination) == presses_of(v.posted, chord, destination) by {
            presses_concat(v.posted, again, chord, g.chord.modifiers, destination);
            posts_of_one(g, id, chord, g.chord.modifiers, destination);
        }
        assert forall|mods: Modifiers, destination: RelayDestination| v.enabled implies #[trigger]
        modifier_presses_of(after.posted, mods, destination) == modifier_presses_of(
            v.posted,
            mods,
            destination,
        ) by {
            presses_concat(v.posted, again, g.chord, mods, destination);
            posts_of_one(g, id, g.chord, mods, destination);
        }
    }
}

/// Releasing everything releases each chord as often as gestures hold it, where they hold
/// it, and the modifiers likewise.
pub proof fn releasing_follows_gestures(v: RelayView)
    ensures
        follows_gestures(v, v.released()),
        v.released().active.len() == 0,
{
    let after = v.released();
    let some = Chord {
        key: Key { scancode: 0 },
        modifiers: Modifiers {
            control: false,
            right_control: false,
            option: false,
            right_option: false,
            shift: false,
            right_shift: false,
            command: false,
            right_command: false,
        },
    };
    assert forall|chord: Chord, destination: RelayDestination| v.enabled implies #[trigger]
    presses_of(after.posted, chord, destination) - presses_of(v.posted, chord, destination)
        == gestures_with(after.active, chord, destination) - gestures_with(
        v.active,
        chord,
        destination,
    ) by {
        presses_concat(v.posted, release_posts(v.active), chord, some.modifiers, destination);
        release_posts_of_each(v.active, chord, some.modifiers, destination);
    }
    assert forall|mods: Modifiers, destination: RelayDestination| v.enabled implies #[trigger]
    modifier_presses_of(after.posted, mods, destination) - modifier_presses_of(
        v.posted,
        mods,
        destination,
    ) == gestures_holding(after.active, mods, destination) - gestures_holding(
        v.active,
        mods,
        destination,
    ) by {
        presses_concat(v.posted, release_posts(v.active), some, mods, destination);
        release_posts_of_each(v.active, some, mods, destination);
    }
}

/// Whatever was pressed is released by releasing everything: where presses and releases of
/// a chord at a destination were balanced by the gestures that hold it, none of that chord
/// is left held there; and the same of modifiers.
pub proof fn releasing_everything_frees_each_key(
    v: RelayView,
    chord: Chord,
    mods: Modifiers,
    destination: RelayDestination,
)
    requires
        v.enabled,
        presses_of(v.posted, chord, destination) == gestures_with(v.active, chord, destination),
        modifier_presses_of(v.posted, mods, destination) == gestures_holding(
            v.active,
            mods,
            destination,
        ),
    ensures
        presses_of(v.released().posted, chord, destination) == 0,
        modifier_presses_of(v.released().posted, mods, destination) == 0,
{
    releasing_follows_gestures(v);
    let after = v.released();
    assert(presses_of(after.posted, chord, destination) - presses_of(v.posted, chord, destination)
        == gestures_with(after.active, chord, destination) - gestures_with(
        v.active,
        chord,
        destination,
    ));
    assert(modifier_presses_of(after.posted, mods, destination) - modifier_presses_of(
        v.posted,
        mods,
        destination,
    ) == gestures_holding(after.active, mods, destination) - gestures_holding(
        v.active,
        mods,
        destination,
    ));
}

/// A gesture that has begun is the newest one, under its name, with the chord and the
/// destination that it was given. The press is the last event; one that goes through the
/// event stream comes right after the press of its modifiers. A repeat adds the press of
/// that same chord, marked as a repeat and nothing else.
pub proof fn beginning_presses_the_chord(v: RelayView, id: Seq<char>, gesture: ActiveGesture)
    requires
        v.enabled,
        v.distinct_ids(),
    ensures
        ({
            let now = v.begun(id, gesture);
            let again = now.repeated(id);
            let n = now.posted.len();
            &&& now.active.len() > 0 && now.active.last() == (id, gesture)
            &&& n > v.posted.len()
            &&& now.posted.take(v.posted.len() as int) == v.posted
            &&& now.posted.last() == Posted::Down(gesture.chord, false, gesture.destination)
            &&& gesture.destination is Hid ==> n >= v.posted.len() + 2 && now.posted[n - 2]
                == Posted::Modifiers(gesture.chord.modifiers, true, RelayDestination::Hid)
            &&& again.active == now.active
            &&& again.posted == now.posted.push(
                Posted::Down(gesture.chord, true, gesture.destination),
            )
        }),
{
    end_keeps_ids_distinct(v, id);
    let freed = v.ended(id);
    let now = v.begun(id, gesture);
    let k = freed.active.len() as int;
    first_where_is_first(freed.active, named(id));
    assert forall|j: int| 0 <= j < k implies !named(id)(#[trigger] now.active[j]) by {
        assert(now.active[j] == freed.active[j]);
    }
    first_where_at(now.active, named(id), k);
    assert(now.posted.take(v.posted.len() as int) =~= v.posted);
}

/// Ending the gesture of a name removes that gesture and keeps every other; the release of
/// its chord is posted where it began, followed by the release of its modifiers where it
/// went through the event stream.
pub proof fn ending_releases_the_chord(v: RelayView, id: Seq<char>, i: int)
    requires
        v.enabled,
        v.distinct_ids(),
        0 <= i < v.active.len(),
        v.active[i].0 == id,
    ensures
        ({
            let now = v.ended(id);
            let chord = v.active[i].1.chord;
            let destination = v.active[i].1.destination;
            &&& now.active.len() == v.active.len() - 1
            &&& forall|j: int| 0 <= j < i ==> now.active[j] == #[trigger] v.active[j]
            &&& forall|j: int| i < j < v.active.len() ==> now.active[j - 1] == #[trigger] v.active[j]
            &&& destination is Hid ==> now.posted == v.posted.push(
                Posted::Up(chord, destination),
            ).push(Posted::Modifiers(chord.modifiers, false, destination))
            &&& !(destination is Hid) ==> now.posted == v.posted.push(
                Posted::Up(chord, destination),
            )
        }),
{
    assert forall|j: int| 0 <= j < i implies !named(id)(#[trigger] v.active[j]) by {
        assert(v.active[j].0 != v.active[i].0);
    }
    first_where_at(v.active, named(id), i);
}

/// Repeating the gesture of a name posts one more press of the chord that it began with,
/// where it began, marked as a repeat; no gesture changes.
pub proof fn repeating_presses_the_same_chord(v: RelayView, id: Seq<char>, i: int)
    requires
        v.enabled,
        v.distinct_ids(),
        0 <= i < v.active.len(),
        v.active[i].0 == id,
    ensures
        v.repeated(id).active == v.active,
        v.repeated(id).posted == v.posted.push(
            Posted::Down(v.active[i].1.chord, true, v.active[i].1.destination),
        ),
{
    assert forall|j: int| 0 <= j < i implies !named(id)(#[trigger] v.active[j]) by {
        assert(v.active[j].0 != v.active[i].0);
    }
    first_where_at(v.active, named(id), i);
}

proof fn release_posts_from_the_front(active: Seq<(Seq<char>, ActiveGesture)>)
    requires
        active.len() > 0,
    ensures
        release_posts(active) == up_posts(active[0].1.chord, active[0].1.destination)
            + release_posts(active.drop_first()),
    decreases active.len(),
{
    let first = up_posts(active[0].1.chord, active[0].1.destination);
    let last = active.last().1;
    if active.len() == 1 {
        assert(release_posts(active.drop_last()) =~= Seq::empty());
        assert(release_posts(active.drop_first()) =~= Seq::empty());
        assert(release_posts(active) =~= first + release_posts(active.drop_first()));
    } else {
        release_posts_from_the_front(active.drop_last());
        assert(active.drop_last().drop_first() =~= active.drop_first().drop_last());
        assert(active.drop_first().last() == active.last());
        assert(release_posts(active) =~= first + (release_posts(active.drop_first().drop_last())
            + up_posts(last.chord, last.destination)));
    }
}

/// Releasing everything is ending the gestures one by one, the oldest first, until none
/// is left.
pub proof fn releasing_ends_the_oldest_first(v: RelayView)
    requires
        v.distinct_ids(),
    ensures
        v.released().active.len() == 0,
        v.active.len() == 0 ==> v.released() == v,
        v.active.len() > 0 ==> v.released() == v.ended(v.active[0].0).released(),
{
    if v.active.len() == 0 {
        assert(v.active =~= Seq::empty());
        assert(v.posted + release_posts(v.active) =~= v.posted);
    } else {
        let id = v.active[0].0;
        first_where_at(v.active, named(id), 0);
        release_posts_from_the_front(v.active);
        assert(v.active.remove(0) =~= v.active.drop_first());
        let first = up_posts(v.active[0].1.chord, v.active[0].1.destination);
        let rest = release_posts(v.active.drop_first());
        assert(v.posted + (first + rest) =~= (v.posted + first) + rest);
    }
}

/// A gesture that begins and ends leaves the other gestures as they were, and
/// posts its press and its release to the destination that it began with.
pub proof fn begin_then_end_is_a_round_trip(v: RelayView, id: Seq<char>, gesture: ActiveGesture)
    requires
        gesture_at(v.active, id) is None,
        v.enabled,
    ensures
        v.begun(id, gesture).ended(id).active == v.active,
        v.begun(id, gesture).ended(id).posted == v.posted + down_posts(
            gesture.chord,
            false,
            gesture.destination,
        ) + up_posts(gesture.chord, gesture.destination),
{
    let named = named(id);
    let now = v.begun(id, gesture);
    let last = now.active.len() - 1;
    first_where_is_first(v.active, named);
    assert forall|j: int| 0 <= j < last implies !named(#[trigger] now.active[j]) by {
        assert(now.active[j] == v.active[j]);
    }
    first_where_at(now.active, named, last);
    assert(now.active.remove(last) =~= v.active);
}

/// Ending or repeating an unknown gesture changes nothing.
pub proof fn unknown_gestures_are_ignored(v: RelayView, id: Seq<char>)
    requires
        gesture_at(v.active, id) is None,
    ensures
        v.ended(id) == v,
        v.repeated(id) == v,
{
}

/// A process only ever receives main key events.
pub proof fn processes_get_no_modifiers(chord: Chord, is_repeat: bool, pid: i32)
    ensures
        forall|i: int|
            0 <= i < down_posts(chord, is_repeat, RelayDestination::Process(pid)).len() ==> !(
            #[trigger] down_posts(chord, is_repeat, RelayDestination::Process(pid))[i]
                is Modifiers),
        forall|i: int|
            0 <= i < up_posts(chord, RelayDestination::Process(pid)).len() ==> !(
            #[trigger] up_posts(chord, RelayDestination::Process(pid))[i] is Modifiers),
{
}

/// Every modifier of a set has its keycode among those posted, and no other.
pub proof fn every_modifier_is_posted(mods: Modifiers, m: Modifier)
    ensures
        codes_among(mods, press_order()).contains(m.code()) <==> mods.has_modifier(m),
{
    codes_hold_exactly(mods, press_order(), m);
    let order = press_order();
    assert(order.contains(m)) by {
        let i = match m {
            Modifier::Control => 0int,
            Modifier::RightControl => 1,
            Modifier::Option => 2,
            Modifier::RightOption => 3,
            Modifier::Shift => 4,
            Modifier::RightShift => 5,
            Modifier::Command => 6,
            Modifier::RightCommand => 7,
        };
        assert(order[i] == m);
    }
}

proof fn codes_hold_exactly(mods: Modifiers, order: Seq<Modifier>, m: Modifier)
    ensures
        codes_among(mods, order).contains(m.code()) <==> order.contains(m) && mods.has_modifier(m),
    decreases order.len(),
{
    if order.len() > 0 {
        let rest = order.drop_last();
        let last = order.last();
        codes_hold_exactly(mods, rest, m);
        let before = codes_among(mods, rest);
        assert(order =~= rest.push(last));
        assert(order.contains(m) <==> rest.contains(m) || last == m) by {
            if rest.contains(m) {
                let i = choose|i: int| 0 <= i < rest.len() && rest[i] == m;
                assert(order[i] == m);
            }
            if last == m {
                assert(order[order.len() - 1] == m);
            }
        }
        if mods.has_modifier(last) {
            let now = before.push(last.code());
            assert(now.contains(m.code()) <==> before.contains(m.code()) || last.code()
                == m.code()) by {
                if before.contains(m.code()) {
                    let i = choose|i: int| 0 <= i < before.len() && before[i] == m.code();
                    assert(now[i] == m.code());
                }
                if last.code() == m.code() {
                    assert(now[before.len() as int] == m.code());
                }
            }
            assert(last.code() == m.code() ==> last == m);
        }
    }
}

} // verus!
