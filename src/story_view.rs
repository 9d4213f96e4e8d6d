use vstd::prelude::*;
use crate::event::{Action, Binding, Effect, EventResult, Key, Phase, Trigger};
use crate::raw_command::{is_digit, number_of, ParseError, RawCommand};
use crate::story::Story;
use crate::styled::{numbered_story_text, numbered_story_text_spec, StyledText, TextStyle};

verus! {

/// What a story list view holds, as the contracts see it.
pub struct StoryViewModel {
    pub stories: Seq<Story>,
    pub lines: Seq<Seq<(TextStyle, Seq<char>)>>,
    pub focus: nat,
    pub command: Seq<char>,
}

/// The focus stays on a story while there is one, and at zero otherwise.
pub open spec fn model_wf(m: StoryViewModel) -> bool {
    &&& m.stories.len() > 0 ==> m.focus < m.stories.len()
    &&& m.stories.len() == 0 ==> m.focus == 0
}

/// A list of stories, each drawn as a numbered summary, with a focused entry
/// and a buffer for digits typed before a command key.
#[derive(Debug)]
pub struct StoryView {
    raw_command: RawCommand,
    lines: Vec<StyledText>,
    stories: Vec<Story>,
    focus: usize,
}

impl View for StoryView {
    type V = StoryViewModel;

    closed spec fn view(&self) -> StoryViewModel {
        StoryViewModel {
            stories: self.stories@,
            lines: self.lines@.map_values(|t: StyledText| t@),
            focus: self.focus as nat,
            command: self.raw_command@,
        }
    }
}

/// What the raw command buffer `s` reads as, when it reads as a number.
pub open spec fn command_number(s: Seq<char>) -> Option<nat> {
    match number_of(s) {
        Ok(v) => Some(v as nat),
        Err(_) => None,
    }
}

/// The goto key: the buffer holds a 1-based line number. A buffer that does not
/// read as a number leaves everything as it is. Otherwise the buffer is emptied;
/// line zero is a cancellation, a line past the end is ignored, and any other
/// line takes the focus.
pub open spec fn goto_spec(m: StoryViewModel) -> (EventResult, StoryViewModel) {
    match command_number(m.command) {
        None => (EventResult::Ignored, m),
        Some(n) => {
            let cleared = StoryViewModel { command: Seq::empty(), ..m };
            if n == 0 {
                (EventResult::Ignored, cleared)
            } else if n - 1 < m.stories.len() {
                (EventResult::Consumed(None), StoryViewModel { focus: (n - 1) as nat, ..cleared })
            } else {
                (EventResult::Ignored, cleared)
            }
        },
    }
}

/// The enter key asks for the comment view of the focused story.
pub open spec fn drill_down_spec(m: StoryViewModel) -> EventResult {
    if m.stories.len() == 0 {
        EventResult::Ignored
    } else {
        EventResult::Consumed(Some(Effect::DrillDown(m.stories[m.focus as int])))
    }
}

/// The open-link key asks for a browser on the focused story's link, and is
/// consumed even where the story has no link.
pub open spec fn open_link_spec(m: StoryViewModel) -> EventResult {
    if m.stories.len() == 0 {
        EventResult::Ignored
    } else if m.stories[m.focus as int].url@.len() > 0 {
        EventResult::Consumed(Some(Effect::OpenLink(m.stories[m.focus as int].url)))
    } else {
        EventResult::Consumed(None)
    }
}

/// A digit key adds the digit to the buffer.
pub open spec fn push_digit_spec(m: StoryViewModel, key: Key) -> (EventResult, StoryViewModel) {
    match key {
        Key::Char(c) => if is_digit(c) {
            (EventResult::Consumed(None), StoryViewModel { command: m.command.push(c), ..m })
        } else {
            (EventResult::Ignored, m)
        },
        _ => (EventResult::Ignored, m),
    }
}

/// What running `action` on key `key` gives, and the view after it.
pub open spec fn action_spec(action: Action, m: StoryViewModel, key: Key) -> (
    EventResult,
    StoryViewModel,
) {
    match action {
        Action::DrillDown => (drill_down_spec(m), m),
        Action::OpenLink => (open_link_spec(m), m),
        Action::GotoLine => goto_spec(m),
        Action::PushDigit => push_digit_spec(m, key),
        Action::SwitchToSearch => (EventResult::Consumed(Some(Effect::SwitchToSearch)), m),
        Action::ShowHelp => (EventResult::Consumed(Some(Effect::ShowHelp)), m),
    }
}

/// The list's own handling of a key: the arrow keys move the focus by one line
/// within the list.
pub open spec fn default_spec(m: StoryViewModel, key: Key) -> (EventResult, StoryViewModel) {
    match key {
        Key::Up => if m.focus > 0 {
            (EventResult::Consumed(None), StoryViewModel { focus: (m.focus - 1) as nat, ..m })
        } else {
            (EventResult::Ignored, m)
        },
        Key::Down => if m.focus + 1 < m.stories.len() {
            (EventResult::Consumed(None), StoryViewModel { focus: m.focus + 1, ..m })
        } else {
            (EventResult::Ignored, m)
        },
        _ => (EventResult::Ignored, m),
    }
}

/// Offers `key` to the bindings of phase `phase` from position `i` on, in
/// order, until one consumes it. Bindings of the other phase, and those whose
/// trigger does not match, are passed over.
pub open spec fn run_phase(
    bindings: Seq<Binding>,
    phase: Phase,
    i: int,
    m: StoryViewModel,
    key: Key,
) -> (EventResult, StoryViewModel)
    decreases bindings.len() - i,
{
    if i < 0 || i >= bindings.len() {
        (EventResult::Ignored, m)
    } else if bindings[i].phase == phase && bindings[i].trigger.matches(key) {
        let (r, m2) = action_spec(bindings[i].action, m, key);
        if r.consumed() {
            (r, m2)
        } else {
            run_phase(bindings, phase, i + 1, m2, key)
        }
    } else {
        run_phase(bindings, phase, i + 1, m, key)
    }
}

/// The whole chain: the pre-event bindings in order, then, if none consumed the
/// key, the list's own handling, then, if that ignored it, the post-event
/// bindings in order.
pub open spec fn dispatch_spec(bindings: Seq<Binding>, m: StoryViewModel, key: Key) -> (
    EventResult,
    StoryViewModel,
) {
    let (r1, m1) = run_phase(bindings, Phase::Pre, 0, m, key);
    if r1.consumed() {
        (r1, m1)
    } else {
        let (r2, m2) = default_spec(m1, key);
        if r2.consumed() {
            (r2, m2)
        } else {
            run_phase(bindings, Phase::Post, 0, m2, key)
        }
    }
}

/// The focus index was past the end of the list.
#[derive(Debug, Clone, Copy, PartialEq, Eq, Structural)]
pub struct OutOfRange;

impl StoryView {
    pub open spec fn wf(&self) -> bool {
        model_wf(self@)
    }

    /// A view of `stories` whose `i`-th line is `i + 1`, a dot and the summary
    /// of the `i`-th story with its age reckoned at `now`. The first story has
    /// the focus and the buffer is empty.
    pub fn new(stories: Vec<Story>, now: u64) -> (r: StoryView)
        ensures
            r.wf(),
            r@.stories == stories@,
            r@.focus == 0,
            r@.command == Seq::<char>::empty(),
            r@.lines.len() == stories@.len(),
            forall|i: int|
                0 <= i < stories@.len() ==> #[trigger] r@.lines[i] == numbered_story_text_spec(
                    i as nat,
                    stories@[i],
                    now,
                ),
    {
        let mut lines: Vec<StyledText> = Vec::new();
        let n = stories.len();
        let mut i: usize = 0;
        while i < n
            invariant
                n == stories@.len(),
                0 <= i <= n,
                lines@.len() == i,
                forall|k: int|
                    0 <= k < i ==> #[trigger] lines@[k]@ == numbered_story_text_spec(
                        k as nat,
                        stories@[k],
                        now,
                    ),
            decreases n - i,
        {
            let line = numbered_story_text(i, &stories[i], now);
            lines.push(line);
            i = i + 1;
        }
        StoryView { raw_command: RawCommand::new(), lines, stories, focus: 0 }
    }

    /// The index of the focused story.
    pub fn get_focus_index(&self) -> (r: usize)
        ensures
            r == self@.focus,
    {
        self.focus
    }

    /// Moves the focus to `index` when it names a story; otherwise changes nothing.
    pub fn set_focus_index(&mut self, index: usize) -> (r: Result<(), OutOfRange>)
        requires
            old(self).wf(),
        ensures
            final(self).wf(),
            r is Ok <==> index < old(self)@.stories.len(),
            r is Ok ==> final(self)@ == (StoryViewModel { focus: index as nat, ..old(self)@ }),
            r is Err ==> final(self)@ == old(self)@,
    {
        if index < self.stories.len() {
            self.focus = index;
            Ok(())
        } else {
            Err(OutOfRange)
        }
    }

    /// The number of stories.
    pub fn len(&self) -> (r: usize)
        ensures
            r == self@.stories.len(),
    {
        self.stories.len()
    }

    /// The stories, in list order.
    pub fn stories(&self) -> (r: &Vec<Story>)
        ensures
            r@ == self@.stories,
    {
        &self.stories
    }

    /// The drawn lines, one per story.
    pub fn lines(&self) -> (r: &Vec<StyledText>)
        ensures
            r@.map_values(|t: StyledText| t@) == self@.lines,
    {
        &self.lines
    }

    /// The raw command buffer.
    pub fn raw_command(&self) -> (r: &RawCommand)
        ensures
            r@ == self@.command,
    {
        &self.raw_command
    }

    /// Adds `c` to the raw command buffer when it is a digit.
    pub fn push_raw_command_digit(&mut self, c: char)
        requires
            old(self).wf(),
        ensures
            final(self).wf(),
            final(self)@ == (StoryViewModel {
                command: if is_digit(c) {
                    old(self)@.command.push(c)
                } else {
                    old(self)@.command
                },
                ..old(self)@
            }),
    {
        self.raw_command.push_digit(c);
    }

    /// Empties the raw command buffer.
    pub fn clear_raw_command(&mut self)
        requires
            old(self).wf(),
        ensures
            final(self).wf(),
            final(self)@ == (StoryViewModel { command: Seq::empty(), ..old(self)@ }),
    {
        self.raw_command.clear();
    }

    /// The raw command buffer read as a number.
    pub fn get_raw_command_as_number(&self) -> (r: Result<usize, ParseError>)
        ensures
            r == number_of(self@.command),
    {
        self.raw_command.as_number()
    }

    /// The enter key: asks for the comment view of the focused story.
    pub fn on_enter(&self) -> (r: EventResult)
        requires
            self.wf(),
        ensures
            r == drill_down_spec(self@),
    {
        if self.stories.len() == 0 {
            return EventResult::Ignored;
        }
        let story = self.stories[self.focus].duplicate();
        EventResult::Consumed(Some(Effect::DrillDown(story)))
    }

    /// The open-link key: asks for a browser on the focused story's link, or
    /// does nothing, but consumes the key either way.
    pub fn on_open_link(&self) -> (r: EventResult)
        requires
            self.wf(),
        ensures
            r == open_link_spec(self@),
    {
        if self.stories.len() == 0 {
            return EventResult::Ignored;
        }
        let url = &self.stories[self.focus].url;
        if url.as_str().unicode_len() > 0 {
            EventResult::Consumed(Some(Effect::OpenLink(url.clone())))
        } else {
            EventResult::Consumed(None)
        }
    }

    /// The goto key: jumps to the 1-based line typed before it.
    pub fn on_goto(&mut self) -> (r: EventResult)
        requires
            old(self).wf(),
        ensures
            final(self).wf(),
            (r, final(self)@) == goto_spec(old(self)@),
    {
        match self.get_raw_command_as_number() {
            Ok(number) => {
                self.clear_raw_command();
                if number == 0 {
                    return EventResult::Ignored;
                }
                let number = number - 1;
                if number < self.len() {
                    let _ = self.set_focus_index(number);
                    EventResult::Consumed(None)
                } else {
                    EventResult::Ignored
                }
            },
            Err(_) => EventResult::Ignored,
        }
    }

    /// Runs the handler of `action` on `key`.
    pub fn run_action(&mut self, action: Action, key: Key) -> (r: EventResult)
        requires
            old(self).wf(),
        ensures
            final(self).wf(),
            (r, final(self)@) == action_spec(action, old(self)@, key),
    {
        match action {
            Action::DrillDown => self.on_enter(),
            Action::OpenLink => self.on_open_link(),
            Action::GotoLine => self.on_goto(),
            Action::PushDigit => match key {
                Key::Char(c) => {
                    if '0' <= c && c <= '9' {
                        self.push_raw_command_digit(c);
                        EventResult::Consumed(None)
                    } else {
                        EventResult::Ignored
                    }
                },
                _ => EventResult::Ignored,
            },
            Action::SwitchToSearch => EventResult::Consumed(Some(Effect::SwitchToSearch)),
            Action::ShowHelp => EventResult::Consumed(Some(Effect::ShowHelp)),
        }
    }

    /// The list's own handling of `key`: the arrow keys move the focus.
    pub fn on_default(&mut self, key: Key) -> (r: EventResult)
        requires
            old(self).wf(),
        ensures
            final(self).wf(),
            (r, final(self)@) == default_spec(old(self)@, key),
    {
        match key {
            Key::Up => {
                if self.focus > 0 {
                    self.focus = self.focus - 1;
                    EventResult::Consumed(None)
                } else {
                    EventResult::Ignored
                }
            },
            Key::Down => {
                if self.focus < self.stories.len() && self.focus + 1 < self.stories.len() {
                    self.focus = self.focus + 1;
                    EventResult::Consumed(None)
                } else {
                    EventResult::Ignored
                }
            },
            _ => EventResult::Ignored,
        }
    }
}

/// What a list view with its binding chain holds, as the contracts see it.
pub struct EventViewModel {
    pub bindings: Seq<Binding>,
    pub inner: StoryViewModel,
}

/// A story list view under an ordered chain of key bindings. A key goes to the
/// pre-event bindings in registration order, then to the list itself, then to
/// the post-event bindings; the first that consumes it ends the chain.
#[derive(Debug)]
pub struct EventView {
    view: StoryView,
    bindings: Vec<Binding>,
}

impl View for EventView {
    type V = EventViewModel;

    closed spec fn view(&self) -> EventViewModel {
        EventViewModel { bindings: self.bindings@, inner: self.view@ }
    }
}

/// The bindings that every list view starts with: digits go to the raw command
/// buffer.
pub open spec fn list_bindings() -> Seq<Binding> {
    seq![Binding { trigger: Trigger::AnyDigit, phase: Phase::Pre, action: Action::PushDigit }]
}

/// The bindings of the main story view, in registration order.
pub open spec fn story_main_bindings() -> Seq<Binding> {
    list_bindings().push(
        Binding { trigger: Trigger::Exact(Key::Enter), phase: Phase::Pre, action: Action::DrillDown },
    ).push(
        Binding {
            trigger: Trigger::Exact(Key::Char('O')),
            phase: Phase::Pre,
            action: Action::OpenLink,
        },
    ).push(
        Binding {
            trigger: Trigger::Exact(Key::Char('g')),
            phase: Phase::Pre,
            action: Action::GotoLine,
        },
    )
}

/// The bindings of the full story screen: those of the main view, then the
/// switches to the search view and to the help view.
pub open spec fn story_screen_bindings() -> Seq<Binding> {
    story_main_bindings().push(
        Binding {
            trigger: Trigger::Exact(Key::AltChar('s')),
            phase: Phase::Post,
            action: Action::SwitchToSearch,
        },
    ).push(
        Binding {
            trigger: Trigger::Exact(Key::AltChar('h')),
            phase: Phase::Post,
            action: Action::ShowHelp,
        },
    )
}

/// Wraps `view` in a chain that holds the list bindings alone.
pub fn construct_list_event_view(view: StoryView) -> (r: EventView)
    requires
        view.wf(),
    ensures
        r.wf(),
        r@.inner == view@,
        r@.bindings == list_bindings(),
{
    let mut bindings: Vec<Binding> = Vec::new();
    bindings.push(
        Binding { trigger: Trigger::AnyDigit, phase: Phase::Pre, action: Action::PushDigit },
    );
    assert(bindings@ =~= list_bindings());
    EventView { view, bindings }
}

impl EventView {
    pub open spec fn wf(&self) -> bool {
        model_wf(self@.inner)
    }

    /// The chain with `binding` added after the others.
    pub fn with_binding(self, binding: Binding) -> (r: EventView)
        requires
            self.wf(),
        ensures
            r.wf(),
            r@.inner == self@.inner,
            r@.bindings == self@.bindings.push(binding),
    {
        let mut s = self;
        s.bindings.push(binding);
        s
    }

    /// The chain with a pre-event binding of `key` to `action` added last.
    pub fn on_pre_event_inner(self, key: Key, action: Action) -> (r: EventView)
        requires
            self.wf(),
        ensures
            r.wf(),
            r@.inner == self@.inner,
            r@.bindings == self@.bindings.push(
                Binding { trigger: Trigger::Exact(key), phase: Phase::Pre, action },
            ),
    {
        self.with_binding(Binding { trigger: Trigger::Exact(key), phase: Phase::Pre, action })
    }

    /// The chain with a post-event binding of `key` to `action` added last.
    pub fn on_event(self, key: Key, action: Action) -> (r: EventView)
        requires
            self.wf(),
        ensures
            r.wf(),
            r@.inner == self@.inner,
            r@.bindings == self@.bindings.push(
                Binding { trigger: Trigger::Exact(key), phase: Phase::Post, action },
            ),
    {
        self.with_binding(Binding { trigger: Trigger::Exact(key), phase: Phase::Post, action })
    }

    /// The list view under the chain.
    pub fn get_inner(&self) -> (r: &StoryView)
        ensures
            r@ == self@.inner,
    {
        &self.view
    }

    /// The bindings, in registration order.
    pub fn bindings(&self) -> (r: &Vec<Binding>)
        ensures
            r@ == self@.bindings,
    {
        &self.bindings
    }

    fn run_bindings(&mut self, phase: Phase, key: Key) -> (r: EventResult)
        requires
            old(self).wf(),
        ensures
            final(self).wf(),
            final(self)@.bindings == old(self)@.bindings,
            (r, final(self)@.inner) == run_phase(old(self)@.bindings, phase, 0, old(self)@.inner, key),
    {
        let n = self.bindings.len();
        let mut i: usize = 0;
        while i < n
            invariant
                self.wf(),
                self@.bindings == old(self)@.bindings,
                n == self@.bindings.len(),
                0 <= i <= n,
                run_phase(old(self)@.bindings, phase, 0, old(self)@.inner, key) == run_phase(
                    self@.bindings,
                    phase,
                    i as int,
                    self@.inner,
                    key,
                ),
            decreases n - i,
        {
            let b = self.bindings[i];
            if b.phase == phase && b.trigger.fires_on(key) {
                let r = self.view.run_action(b.action, key);
                if r.is_consumed() {
                    return r;
                }
            }
            i = i + 1;
        }
        EventResult::Ignored
    }

    /// Offers `key` to the chain.
    pub fn on_key(&mut self, key: Key) -> (r: EventResult)
        requires
            old(self).wf(),
        ensures
            final(self).wf(),
            final(self)@.bindings == old(self)@.bindings,
            (r, final(self)@.inner) == dispatch_spec(old(self)@.bindings, old(self)@.inner, key),
    {
        let r1 = self.run_bindings(Phase::Pre, key);
        if r1.is_consumed() {
            return r1;
        }
        let r2 = self.view.on_default(key);
        if r2.is_consumed() {
            return r2;
        }
        self.run_bindings(Phase::Post, key)
    }
}

/// The main view of a story list, without status bar or footer: the list of
/// `stories` under the list bindings, then enter to open the comments of the
/// focused story, `O` to open its link and `g` to go to the line typed before.
pub fn get_story_main_view(stories: Vec<Story>, now: u64) -> (r: EventView)
    ensures
        r.wf(),
        r@.bindings == story_main_bindings(),
        r@.inner.stories == stories@,
        r@.inner.focus == 0,
        r@.inner.command == Seq::<char>::empty(),
        r@.inner.lines.len() == stories@.len(),
        forall|i: int|
            0 <= i < stories@.len() ==> #[trigger] r@.inner.lines[i] == numbered_story_text_spec(
                i as nat,
                stories@[i],
                now,
            ),
{
    construct_list_event_view(StoryView::new(stories, now)).on_pre_event_inner(
        Key::Enter,
        Action::DrillDown,
    ).on_pre_event_inner(Key::Char('O'), Action::OpenLink).on_pre_event_inner(
        Key::Char('g'),
        Action::GotoLine,
    )
}

/// A story list screen: a status bar with a description of the list, and the
/// main view, whose chain also switches to the search view on Alt-s and to the
/// help view on Alt-h; each of them takes the place of the current layer.
#[derive(Debug)]
pub struct StoryScreen {
    pub desc: String,
    pub main: EventView,
}

/// The story list screen for `stories`, described by `desc`.
pub fn get_story_view(desc: &str, stories: Vec<Story>, now: u64) -> (r: StoryScreen)
    ensures
        r.main.wf(),
        r.desc@ == desc@,
        r.main@.bindings == story_screen_bindings(),
        r.main@.inner.stories == stories@,
        r.main@.inner.focus == 0,
        r.main@.inner.command == Seq::<char>::empty(),
        r.main@.inner.lines.len() == stories@.len(),
        forall|i: int|
            0 <= i < stories@.len() ==> #[trigger] r.main@.inner.lines[i]
                == numbered_story_text_spec(i as nat, stories@[i], now),
{
    let main = get_story_main_view(stories, now).on_event(
        Key::AltChar('s'),
        Action::SwitchToSearch,
    ).on_event(Key::AltChar('h'), Action::ShowHelp);
    StoryScreen { desc: String::from_str(desc), main }
}

/// Of two pre-event bindings registered on the same key, the first registered
/// is tried first and wins when it consumes the key; when it does not, the second
/// is tried on the view as the first left it; when neither consumes it, the
/// list's own handling runs.
pub proof fn lemma_first_binding_wins(b1: Binding, b2: Binding, m: StoryViewModel, key: Key)
    requires
        b1.phase == Phase::Pre,
        b2.phase == Phase::Pre,
        b1.trigger.matches(key),
        b2.trigger.matches(key),
    ensures
        ({
            let (r1, m1) = action_spec(b1.action, m, key);
            let (r2, m2) = action_spec(b2.action, m1, key);
            let (rd, md) = default_spec(m2, key);
            &&& r1.consumed() ==> dispatch_spec(seq![b1, b2], m, key) == (r1, m1)
            &&& !r1.consumed() && r2.consumed() ==> dispatch_spec(seq![b1, b2], m, key) == (
                r2,
                m2,
            )
            &&& !r1.consumed() && !r2.consumed() && rd.consumed() ==> dispatch_spec(
                seq![b1, b2],
                m,
                key,
            ) == (rd, md)
            &&& !r1.consumed() && !r2.consumed() && !rd.consumed() ==> dispatch_spec(
                seq![b1, b2],
                m,
                key,
            ) == (EventResult::Ignored, md)
        }),
{
    let bs = seq![b1, b2];
    reveal_with_fuel(run_phase, 3);
    let (r1, m1) = action_spec(b1.action, m, key);
    let (r2, m2) = action_spec(b2.action, m1, key);
    let (rd, md) = default_spec(m2, key);
    assert(run_phase(bs, Phase::Post, 2, md, key) == (EventResult::Ignored, md));
    assert(run_phase(bs, Phase::Post, 0, md, key) == (EventResult::Ignored, md));
}

/// On the main story view, the open-link key on a story without a link is
/// consumed, asks for no browser and changes nothing.
pub proof fn lemma_open_link_without_url(m: StoryViewModel)
    requires
        model_wf(m),
        m.stories.len() > 0,
        m.stories[m.focus as int].url@.len() == 0,
    ensures
        dispatch_spec(story_main_bindings(), m, Key::Char('O')) == (
            EventResult::Consumed(None),
            m,
        ),
{
    let bs = story_main_bindings();
    let key = Key::Char('O');
    assert(!is_digit('O'));
    assert(!bs[0].trigger.matches(key));
    assert(!bs[1].trigger.matches(key));
    assert(bs[2].trigger.matches(key));
    assert(run_phase(bs, Phase::Pre, 2, m, key) == (EventResult::Consumed(None), m));
    assert(run_phase(bs, Phase::Pre, 1, m, key) == (EventResult::Consumed(None), m));
    assert(run_phase(bs, Phase::Pre, 0, m, key) == (EventResult::Consumed(None), m));
}

} // verus!
