use hn_views::event::{Action, Binding, Effect, EventResult, Key, Phase, Trigger};
use hn_views::story::Story;
use hn_views::story_view::{
    construct_list_event_view, get_story_main_view, get_story_view, OutOfRange, StoryView,
};

fn story(i: u32, url: &str) -> Story {
    Story {
        id: 100 + i,
        title: format!("story {}", i),
        url: String::from(url),
        author: String::from("bob"),
        points: i,
        num_comments: 0,
        time: 0,
    }
}

fn stories(n: u32) -> Vec<Story> {
    (0..n).map(|i| story(i, "https://example.com")).collect()
}

fn press(v: &mut hn_views::story_view::EventView, keys: &str) {
    for c in keys.chars() {
        v.on_key(Key::Char(c));
    }
}

#[test]
fn new_view_focuses_first() {
    let v = StoryView::new(stories(4), 0);
    assert_eq!(v.get_focus_index(), 0);
    assert_eq!(v.len(), 4);
    assert_eq!(v.lines().len(), 4);
    assert_eq!(v.lines()[3].spans[0].text, "4. ");
    assert_eq!(v.lines()[3].spans[1].text, "story 3");
    assert!(v.raw_command().is_empty());
}

#[test]
fn empty_view() {
    let mut v = StoryView::new(Vec::new(), 0);
    assert_eq!(v.len(), 0);
    assert_eq!(v.get_focus_index(), 0);
    assert_eq!(v.set_focus_index(0), Err(OutOfRange));
    assert!(matches!(v.on_enter(), EventResult::Ignored));
    assert!(matches!(v.on_open_link(), EventResult::Ignored));
}

#[test]
fn set_focus_bounds() {
    let mut v = StoryView::new(stories(3), 0);
    assert_eq!(v.set_focus_index(2), Ok(()));
    assert_eq!(v.get_focus_index(), 2);
    assert_eq!(v.set_focus_index(3), Err(OutOfRange));
    assert_eq!(v.get_focus_index(), 2);
    assert_eq!(v.set_focus_index(usize::MAX), Err(OutOfRange));
    assert_eq!(v.get_focus_index(), 2);
    assert_eq!(v.set_focus_index(0), Ok(()));
    assert_eq!(v.get_focus_index(), 0);
}

#[test]
fn goto_line_twelve() {
    let mut v = get_story_main_view(stories(15), 0);
    press(&mut v, "12");
    assert_eq!(v.get_inner().raw_command().as_number(), Ok(12));
    let r = v.on_key(Key::Char('g'));
    assert!(matches!(r, EventResult::Consumed(None)));
    assert_eq!(v.get_inner().get_focus_index(), 11);
    assert!(v.get_inner().raw_command().is_empty());
}

#[test]
fn goto_line_zero_cancels() {
    let mut v = get_story_main_view(stories(15), 0);
    press(&mut v, "3g");
    assert_eq!(v.get_inner().get_focus_index(), 2);
    press(&mut v, "0");
    let r = v.on_key(Key::Char('g'));
    assert!(matches!(r, EventResult::Ignored));
    assert_eq!(v.get_inner().get_focus_index(), 2);
    assert!(v.get_inner().raw_command().is_empty());
}

#[test]
fn goto_line_past_end_ignored() {
    let mut v = get_story_main_view(stories(15), 0);
    press(&mut v, "99");
    let r = v.on_key(Key::Char('g'));
    assert!(matches!(r, EventResult::Ignored));
    assert_eq!(v.get_inner().get_focus_index(), 0);
    assert!(v.get_inner().raw_command().is_empty());
}

#[test]
fn goto_without_number_ignored() {
    let mut v = get_story_main_view(stories(15), 0);
    v.on_key(Key::Down);
    let r = v.on_key(Key::Char('g'));
    assert!(matches!(r, EventResult::Ignored));
    assert_eq!(v.get_inner().get_focus_index(), 1);
}

#[test]
fn arrows_move_focus_within_list() {
    let mut v = get_story_main_view(stories(2), 0);
    assert!(matches!(v.on_key(Key::Up), EventResult::Ignored));
    assert!(matches!(v.on_key(Key::Down), EventResult::Consumed(None)));
    assert!(matches!(v.on_key(Key::Down), EventResult::Ignored));
    assert_eq!(v.get_inner().get_focus_index(), 1);
    assert!(matches!(v.on_key(Key::Up), EventResult::Consumed(None)));
    assert_eq!(v.get_inner().get_focus_index(), 0);
}

#[test]
fn first_registered_binding_wins() {
    let v = construct_list_event_view(StoryView::new(stories(3), 0));
    let mut v = v
        .on_pre_event_inner(Key::Char('x'), Action::ShowHelp)
        .on_pre_event_inner(Key::Char('x'), Action::SwitchToSearch);
    let r = v.on_key(Key::Char('x'));
    assert!(matches!(r, EventResult::Consumed(Some(Effect::ShowHelp))));
}

#[test]
fn unhandled_binding_passes_to_next() {
    let v = construct_list_event_view(StoryView::new(stories(3), 0));
    let mut v = v
        .on_pre_event_inner(Key::Char('g'), Action::GotoLine)
        .on_pre_event_inner(Key::Char('g'), Action::ShowHelp);
    let r = v.on_key(Key::Char('g'));
    assert!(matches!(r, EventResult::Consumed(Some(Effect::ShowHelp))));
}

#[test]
fn unhandled_chain_falls_to_default() {
    let v = construct_list_event_view(StoryView::new(stories(3), 0));
    let mut v = v
        .on_pre_event_inner(Key::Down, Action::GotoLine)
        .on_pre_event_inner(Key::Down, Action::GotoLine);
    let r = v.on_key(Key::Down);
    assert!(matches!(r, EventResult::Consumed(None)));
    assert_eq!(v.get_inner().get_focus_index(), 1);
    let r = v.on_key(Key::Char('z'));
    assert!(matches!(r, EventResult::Ignored));
}

#[test]
fn pre_binding_shadows_default() {
    let v = construct_list_event_view(StoryView::new(stories(3), 0));
    let mut v = v.with_binding(Binding {
        trigger: Trigger::Exact(Key::Down),
        phase: Phase::Pre,
        action: Action::ShowHelp,
    });
    let r = v.on_key(Key::Down);
    assert!(matches!(r, EventResult::Consumed(Some(Effect::ShowHelp))));
    assert_eq!(v.get_inner().get_focus_index(), 0);
}

#[test]
fn post_binding_after_default() {
    let v = construct_list_event_view(StoryView::new(stories(2), 0));
    let mut v = v.on_event(Key::Down, Action::ShowHelp);
    assert!(matches!(v.on_key(Key::Down), EventResult::Consumed(None)));
    assert!(matches!(v.on_key(Key::Down), EventResult::Consumed(Some(Effect::ShowHelp))));
}

#[test]
fn enter_drills_into_focused_story() {
    let mut v = get_story_main_view(stories(5), 0);
    press(&mut v, "4g");
    match v.on_key(Key::Enter) {
        EventResult::Consumed(Some(Effect::DrillDown(s))) => {
            assert_eq!(s.id, 103);
            assert_eq!(s.title, "story 3");
        }
        _ => panic!("expected a drill-down"),
    }
}

#[test]
fn open_link_with_url() {
    let mut v = get_story_main_view(stories(2), 0);
    match v.on_key(Key::Char('O')) {
        EventResult::Consumed(Some(Effect::OpenLink(u))) => assert_eq!(u, "https://example.com"),
        _ => panic!("expected a link to open"),
    }
}

#[test]
fn open_link_without_url_is_consumed() {
    let mut v = get_story_main_view(vec![story(0, "")], 0);
    let r = v.on_key(Key::Char('O'));
    assert!(matches!(r, EventResult::Consumed(None)));
    assert_eq!(v.get_inner().get_focus_index(), 0);
}

#[test]
fn story_screen_alt_keys() {
    let mut screen = get_story_view("Top stories", stories(2), 0);
    assert_eq!(screen.desc, "Top stories");
    assert_eq!(screen.main.bindings().len(), 6);
    assert!(matches!(
        screen.main.on_key(Key::AltChar('s')),
        EventResult::Consumed(Some(Effect::SwitchToSearch))
    ));
    assert!(matches!(
        screen.main.on_key(Key::AltChar('h')),
        EventResult::Consumed(Some(Effect::ShowHelp))
    ));
    assert!(matches!(screen.main.on_key(Key::AltChar('q')), EventResult::Ignored));
}
