use hn_views::event::Effect;
use hn_views::layers::{Command, LayerContent, LayerStack};
use hn_views::story::Story;

fn story() -> Story {
    Story {
        id: 9,
        title: String::from("t"),
        url: String::new(),
        author: String::from("a"),
        points: 1,
        num_comments: 2,
        time: 0,
    }
}

#[test]
fn drill_down_then_success() {
    let mut st = LayerStack::new(LayerContent::Stories);
    st.push(LayerContent::Stories, false);
    let below = st.layers()[0].id;
    let cmd = st.apply_effect(Effect::DrillDown(story()));
    let layer = match cmd {
        Command::Fetch { layer, story } => {
            assert_eq!(story.id, 9);
            layer
        }
        _ => panic!("expected a fetch"),
    };
    assert_eq!(st.len(), 2);
    assert!(matches!(st.layers()[1].content, LayerContent::Loading(9)));
    assert!(st.layers()[1].transparent);
    assert!(st.complete_fetch(layer, Ok(())));
    assert_eq!(st.len(), 2);
    assert_eq!(st.layers()[0].id, below);
    assert_eq!(st.layers()[1].id, layer);
    assert!(matches!(st.layers()[1].content, LayerContent::Comments(9)));
}

#[test]
fn drill_down_then_failure() {
    let mut st = LayerStack::new(LayerContent::Stories);
    let layer = match st.apply_effect(Effect::DrillDown(story())) {
        Command::Fetch { layer, .. } => layer,
        _ => panic!("expected a fetch"),
    };
    assert!(st.complete_fetch(layer, Err(String::from("timed out"))));
    match &st.layers()[0].content {
        LayerContent::Error(m) => assert_eq!(m, "timed out"),
        _ => panic!("expected an error layer"),
    }
}

#[test]
fn stale_completion_changes_nothing() {
    let mut st = LayerStack::new(LayerContent::Stories);
    let layer = match st.apply_effect(Effect::DrillDown(story())) {
        Command::Fetch { layer, .. } => layer,
        _ => panic!("expected a fetch"),
    };
    st.apply_effect(Effect::SwitchToSearch);
    assert!(!st.complete_fetch(layer, Ok(())));
    assert_eq!(st.len(), 1);
    assert!(matches!(st.layers()[0].content, LayerContent::Search));
}

#[test]
fn completion_targets_its_own_placeholder() {
    let mut st = LayerStack::new(LayerContent::Stories);
    let first = match st.apply_effect(Effect::DrillDown(story())) {
        Command::Fetch { layer, .. } => layer,
        _ => panic!("expected a fetch"),
    };
    let above = st.push(LayerContent::Search, true);
    let top = st.push(LayerContent::Stories, false);
    assert_eq!(st.len(), 3);
    assert!(st.complete_fetch(first, Ok(())));
    assert_eq!(st.len(), 3);
    assert_eq!(st.layers()[0].id, first);
    assert!(matches!(st.layers()[0].content, LayerContent::Comments(9)));
    assert_eq!(st.layers()[1].id, above);
    assert!(matches!(st.layers()[1].content, LayerContent::Search));
    assert_eq!(st.layers()[2].id, top);
    assert!(matches!(st.layers()[2].content, LayerContent::Stories));
    assert!(!st.complete_fetch(first, Ok(())));
}

#[test]
fn show_help_replaces_top() {
    let mut st = LayerStack::new(LayerContent::Stories);
    let below = st.layers()[0].id;
    st.push(LayerContent::Stories, false);
    assert!(matches!(st.apply_effect(Effect::ShowHelp), Command::Nothing));
    assert_eq!(st.len(), 2);
    assert_eq!(st.layers()[0].id, below);
    assert!(matches!(st.layers()[0].content, LayerContent::Stories));
    assert!(matches!(st.layers()[1].content, LayerContent::Help));
    assert!(!st.layers()[1].transparent);
}

#[test]
fn root_layer_stays() {
    let mut st = LayerStack::new(LayerContent::Stories);
    assert!(st.pop().is_none());
    assert_eq!(st.len(), 1);
    let id = st.push(LayerContent::Help, false);
    assert_eq!(id, 1);
    let top = st.pop().unwrap();
    assert_eq!(top.id, 1);
    assert_eq!(st.len(), 1);
}

#[test]
fn open_link_left_to_caller() {
    let mut st = LayerStack::new(LayerContent::Stories);
    match st.apply_effect(Effect::OpenLink(String::from("https://x.org"))) {
        Command::OpenUrl(u) => assert_eq!(u, "https://x.org"),
        _ => panic!("expected a link"),
    }
    assert_eq!(st.len(), 1);
}

#[test]
fn replace_top_gives_fresh_ids() {
    let mut st = LayerStack::new(LayerContent::Stories);
    let a = st.replace_top(LayerContent::Search, true);
    let b = st.replace_top(LayerContent::Stories, false);
    assert_ne!(a, b);
    assert_eq!(st.len(), 1);
    assert_eq!(st.layers()[0].id, b);
    assert!(st.has_fresh_id());
}
