use vstd::prelude::*;
use crate::story::Story;

verus! {

/// How a segment of text is drawn.
#[derive(Debug, Clone, Copy, PartialEq, Eq, Structural)]
pub enum TextStyle {
    /// The terminal's default style.
    Plain,
    /// The colour of links.
    Link,
    /// The secondary colour of metadata lines.
    Description,
}

/// A run of text drawn in one style.
#[derive(Debug, Clone)]
pub struct Span {
    pub style: TextStyle,
    pub text: String,
}

/// Text made of styled runs, in drawing order.
#[derive(Debug, Clone)]
pub struct StyledText {
    pub spans: Vec<Span>,
}

impl View for StyledText {
    type V = Seq<(TextStyle, Seq<char>)>;

    open spec fn view(&self) -> Seq<(TextStyle, Seq<char>)> {
        self.spans@.map_values(|sp: Span| (sp.style, sp.text@))
    }
}

/// The character of a decimal digit.
pub open spec fn digit_char(d: nat) -> char {
    if d == 0 {
        '0'
    } else if d == 1 {
        '1'
    } else if d == 2 {
        '2'
    } else if d == 3 {
        '3'
    } else if d == 4 {
        '4'
    } else if d == 5 {
        '5'
    } else if d == 6 {
        '6'
    } else if d == 7 {
        '7'
    } else if d == 8 {
        '8'
    } else {
        '9'
    }
}

/// `n` written in base ten, without leading zeros.
pub open spec fn decimal(n: nat) -> Seq<char>
    decreases n,
{
    if n < 10 {
        seq![digit_char(n)]
    } else {
        decimal(n / 10).push(digit_char(n % 10))
    }
}

pub const SECS_PER_MINUTE: u64 = 60;

pub const SECS_PER_HOUR: u64 = 3600;

pub const SECS_PER_DAY: u64 = 86400;

/// A duration of `e` seconds in its largest whole unit, e.g. `3 hours`.
pub open spec fn elapsed_text(e: nat) -> Seq<char> {
    if e < SECS_PER_MINUTE {
        decimal(e) + " seconds"@
    } else if e < SECS_PER_HOUR {
        decimal(e / SECS_PER_MINUTE as nat) + " minutes"@
    } else if e < SECS_PER_DAY {
        decimal(e / SECS_PER_HOUR as nat) + " hours"@
    } else {
        decimal(e / SECS_PER_DAY as nat) + " days"@
    }
}

/// Seconds from `time` to `now`; a time in the future counts as no time.
pub open spec fn elapsed_secs(time: u64, now: u64) -> nat {
    if now >= time {
        (now - time) as nat
    } else {
        0
    }
}

/// The metadata line of a story.
pub open spec fn meta_line(story: Story, now: u64) -> Seq<char> {
    "\n"@ + decimal(story.points as nat) + " points | by "@ + story.author@ + " | "@
        + elapsed_text(elapsed_secs(story.time, now)) + " ago | "@ + decimal(
        story.num_comments as nat,
    ) + " comments"@
}

/// The summary of a story: its title, its link on a line of its own when it has
/// one, and its metadata line.
pub open spec fn story_text(story: Story, now: u64) -> Seq<(TextStyle, Seq<char>)> {
    let head = seq![(TextStyle::Plain, story.title@)];
    let linked = if story.url@.len() > 0 {
        head.push((TextStyle::Link, "\n("@ + story.url@ + ")"@))
    } else {
        head
    };
    linked.push((TextStyle::Description, meta_line(story, now)))
}

/// The line that a list shows for its `index`-th story (0-based), numbered from one.
pub open spec fn numbered_story_text_spec(index: nat, story: Story, now: u64) -> Seq<
    (TextStyle, Seq<char>),
> {
    seq![(TextStyle::Plain, decimal(index + 1) + ". "@)] + story_text(story, now)
}

fn digit_str(d: u64) -> (r: &'static str)
    requires
        d < 10,
    ensures
        r@ == seq![digit_char(d as nat)],
{
    if d == 0 {
        proof { reveal_strlit("0"); }
        "0"
    } else if d == 1 {
        proof { reveal_strlit("1"); }
        "1"
    } else if d == 2 {
        proof { reveal_strlit("2"); }
        "2"
    } else if d == 3 {
        proof { reveal_strlit("3"); }
        "3"
    } else if d == 4 {
        proof { reveal_strlit("4"); }
        "4"
    } else if d == 5 {
        proof { reveal_strlit("5"); }
        "5"
    } else if d == 6 {
        proof { reveal_strlit("6"); }
        "6"
    } else if d == 7 {
        proof { reveal_strlit("7"); }
        "7"
    } else if d == 8 {
        proof { reveal_strlit("8"); }
        "8"
    } else {
        proof { reveal_strlit("9"); }
        "9"
    }
}

/// Appends `n` in base ten to `out`.
pub fn push_decimal(out: &mut String, n: u64)
    ensures
        final(out)@ == old(out)@ + decimal(n as nat),
    decreases n,
{
    if n >= 10 {
        push_decimal(out, n / 10);
        out.append(digit_str(n % 10));
        assert(final(out)@ =~= old(out)@ + decimal(n as nat));
    } else {
        out.append(digit_str(n));
    }
}

/// Appends the text of a duration of `e` seconds to `out`.
pub fn push_elapsed_text(out: &mut String, e: u64)
    ensures
        final(out)@ == old(out)@ + elapsed_text(e as nat),
{
    if e < SECS_PER_MINUTE {
        push_decimal(out, e);
        out.append(" seconds");
    } else if e < SECS_PER_HOUR {
        push_decimal(out, e / SECS_PER_MINUTE);
        out.append(" minutes");
    } else if e < SECS_PER_DAY {
        push_decimal(out, e / SECS_PER_HOUR);
        out.append(" hours");
    } else {
        push_decimal(out, e / SECS_PER_DAY);
        out.append(" days");
    }
    assert(final(out)@ =~= old(out)@ + elapsed_text(e as nat));
}

impl StyledText {
    /// Text with no runs.
    pub fn new() -> (r: StyledText)
        ensures
            r@ == Seq::<(TextStyle, Seq<char>)>::empty(),
    {
        let r = StyledText { spans: Vec::new() };
        assert(r@ =~= Seq::<(TextStyle, Seq<char>)>::empty());
        r
    }

    /// Adds a run at the end.
    pub fn append_styled(&mut self, text: String, style: TextStyle)
        ensures
            final(self)@ == old(self)@.push((style, text@)),
    {
        self.spans.push(Span { style, text });
        assert(final(self)@ =~= old(self)@.push((style, text@)));
    }
}

/// Appends the runs of the summary of `story` to `out`, with elapsed time
/// reckoned at `now`.
pub fn push_story_text(out: &mut StyledText, story: &Story, now: u64)
    ensures
        final(out)@ == old(out)@ + story_text(*story, now),
{
    out.append_styled(story.title.clone(), TextStyle::Plain);
    if story.url.as_str().unicode_len() > 0 {
        let mut link = String::from_str("\n(");
        link.append(story.url.as_str());
        link.append(")");
        out.append_styled(link, TextStyle::Link);
    }
    let mut meta = String::from_str("\n");
    push_decimal(&mut meta, story.points as u64);
    meta.append(" points | by ");
    meta.append(story.author.as_str());
    meta.append(" | ");
    let elapsed = if now >= story.time {
        now - story.time
    } else {
        0
    };
    push_elapsed_text(&mut meta, elapsed);
    meta.append(" ago | ");
    push_decimal(&mut meta, story.num_comments as u64);
    meta.append(" comments");
    out.append_styled(meta, TextStyle::Description);
    assert(final(out)@ =~= old(out)@ + story_text(*story, now));
}

/// The summary of a story: its title, its link in the link style when it has
/// one, and a metadata line (points, author, age at `now`, comment count) in the
/// description style.
pub fn get_story_text(story: &Story, now: u64) -> (r: StyledText)
    ensures
        r@ == story_text(*story, now),
{
    let mut r = StyledText::new();
    push_story_text(&mut r, story, now);
    assert(r@ =~= story_text(*story, now));
    r
}

/// The line of a list for its `index`-th story (0-based): the number `index + 1`
/// followed by the summary.
pub fn numbered_story_text(index: usize, story: &Story, now: u64) -> (r: StyledText)
    requires
        index < u64::MAX,
    ensures
        r@ == numbered_story_text_spec(index as nat, *story, now),
{
    let mut number = String::new();
    push_decimal(&mut number, index as u64 + 1);
    number.append(". ");
    let mut r = StyledText::new();
    r.append_styled(number, TextStyle::Plain);
    push_story_text(&mut r, story, now);
    assert(r@ =~= numbered_story_text_spec(index as nat, *story, now));
    r
}

} // verus!
