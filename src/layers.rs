use vstd::prelude::*;
use crate::event::Effect;
use crate::story::Story;

verus! {

/// What a layer shows.
#[derive(Debug, Clone)]
pub enum LayerContent {
    /// A story list screen.
    Stories,
    /// A loading indicator while the comments of this story are fetched.
    Loading(u32),
    /// The comments of this story.
    Comments(u32),
    /// A fetch that failed, with its message.
    Error(String),
    /// The search view.
    Search,
    /// The help view.
    Help,
}

/// One screen or overlay of the navigation stack, with an identity that no
/// other layer of the same stack has.
#[derive(Debug, Clone)]
pub struct Layer {
    pub id: u64,
    pub transparent: bool,
    pub content: LayerContent,
}

/// What a layer stack holds, as the contracts see it; the top is the last layer.
pub struct LayerStackModel {
    pub layers: Seq<Layer>,
    pub next_id: u64,
}

/// A stack always keeps a root layer, and every identity is below the next one
/// to be handed out and used once.
pub open spec fn stack_wf(m: LayerStackModel) -> bool {
    &&& m.layers.len() >= 1
    &&& forall|i: int| 0 <= i < m.layers.len() ==> #[trigger] m.layers[i].id < m.next_id
    &&& forall|i: int, j: int|
        0 <= i < m.layers.len() && 0 <= j < m.layers.len() && i != j ==> #[trigger] m.layers[i].id
            != #[trigger] m.layers[j].id
}

/// The stack of layers that the screen draws, bottom first.
#[derive(Debug)]
pub struct LayerStack {
    layers: Vec<Layer>,
    next_id: u64,
}

impl View for LayerStack {
    type V = LayerStackModel;

    closed spec fn view(&self) -> LayerStackModel {
        LayerStackModel { layers: self.layers@, next_id: self.next_id }
    }
}

/// Work that the caller carries out after an effect has been applied.
#[derive(Debug, Clone)]
pub enum Command {
    /// Nothing more to do.
    Nothing,
    /// Fetch the comments of `story`, then hand the outcome back for the
    /// placeholder layer `layer`.
    Fetch { layer: u64, story: Story },
    /// Launch a browser on this link.
    OpenUrl(String),
}

/// `s` with its top layer replaced by `layer`.
pub open spec fn replace_top_spec(s: Seq<Layer>, layer: Layer) -> Seq<Layer> {
    s.drop_last().push(layer)
}

/// The effect of `effect` on a stack, and the work left to the caller. A
/// drill-down replaces the current layer with a transparent loading layer under
/// a fresh identity and asks for the fetch; the search view and the help view
/// each replace the current layer, so the stack keeps its length; a link is left
/// to the caller.
pub open spec fn effect_spec(m: LayerStackModel, effect: Effect) -> (Command, LayerStackModel) {
    match effect {
        Effect::DrillDown(story) => (
            Command::Fetch { layer: m.next_id, story },
            LayerStackModel {
                layers: replace_top_spec(
                    m.layers,
                    Layer { id: m.next_id, transparent: true, content: LayerContent::Loading(story.id) },
                ),
                next_id: (m.next_id + 1) as u64,
            },
        ),
        Effect::OpenLink(url) => (Command::OpenUrl(url), m),
        Effect::SwitchToSearch => (
            Command::Nothing,
            LayerStackModel {
                layers: replace_top_spec(
                    m.layers,
                    Layer { id: m.next_id, transparent: true, content: LayerContent::Search },
                ),
                next_id: (m.next_id + 1) as u64,
            },
        ),
        Effect::ShowHelp => (
            Command::Nothing,
            LayerStackModel {
                layers: replace_top_spec(
                    m.layers,
                    Layer { id: m.next_id, transparent: false, content: LayerContent::Help },
                ),
                next_id: (m.next_id + 1) as u64,
            },
        ),
    }
}

/// Layer `i` of `s` is the loading placeholder with identity `id`.
pub open spec fn is_placeholder_at(s: Seq<Layer>, i: int, id: u64) -> bool {
    0 <= i < s.len() && s[i].id == id && s[i].content is Loading
}

/// What a placeholder becomes once its fetch is over: the comment view on
/// success, an error layer with the message on failure; identity and
/// transparency are kept.
pub open spec fn completed_layer(l: Layer, outcome: Result<(), String>) -> Layer {
    Layer {
        id: l.id,
        transparent: l.transparent,
        content: match outcome {
            Ok(_) => LayerContent::Comments(l.content->Loading_0),
            Err(msg) => LayerContent::Error(msg),
        },
    }
}

/// The stack after the fetch for placeholder `id` ended with `outcome`: that
/// placeholder, and no other layer, is replaced; where it is no longer on the
/// stack, nothing changes.
pub open spec fn complete_spec(s: Seq<Layer>, id: u64, outcome: Result<(), String>) -> Seq<Layer> {
    if exists|i: int| is_placeholder_at(s, i, id) {
        let i = choose|i: int| is_placeholder_at(s, i, id);
        s.update(i, completed_layer(s[i], outcome))
    } else {
        s
    }
}

impl LayerStack {
    pub open spec fn wf(&self) -> bool {
        stack_wf(self@)
    }

    /// A stack that holds the opaque layer `root` alone.
    pub fn new(root: LayerContent) -> (r: LayerStack)
        ensures
            r.wf(),
            r@.layers == seq![Layer { id: 0, transparent: false, content: root }],
            r@.next_id == 1,
    {
        let mut layers: Vec<Layer> = Vec::new();
        layers.push(Layer { id: 0, transparent: false, content: root });
        LayerStack { layers, next_id: 1 }
    }

    /// The layers, bottom first.
    pub fn layers(&self) -> (r: &Vec<Layer>)
        ensures
            r@ == self@.layers,
    {
        &self.layers
    }

    /// The number of layers.
    pub fn len(&self) -> (r: usize)
        ensures
            r == self@.layers.len(),
    {
        self.layers.len()
    }

    /// Whether another identity can be handed out.
    pub fn has_fresh_id(&self) -> (r: bool)
        ensures
            r == (self@.next_id < u64::MAX),
    {
        self.next_id < u64::MAX
    }

    /// Puts a new layer on top and returns its identity.
    pub fn push(&mut self, content: LayerContent, transparent: bool) -> (id: u64)
        requires
            old(self).wf(),
            old(self)@.next_id < u64::MAX,
        ensures
            final(self).wf(),
            id == old(self)@.next_id,
            final(self)@.next_id == old(self)@.next_id + 1,
            final(self)@.layers == old(self)@.layers.push(Layer { id, transparent, content }),
    {
        let id = self.next_id;
        self.layers.push(Layer { id, transparent, content });
        self.next_id = self.next_id + 1;
        id
    }

    /// Removes the top layer and returns it, unless it is the root layer, which
    /// stays.
    pub fn pop(&mut self) -> (r: Option<Layer>)
        requires
            old(self).wf(),
        ensures
            final(self).wf(),
            final(self)@.next_id == old(self)@.next_id,
            old(self)@.layers.len() > 1 ==> r == Some(old(self)@.layers.last())
                && final(self)@.layers == old(self)@.layers.drop_last(),
            old(self)@.layers.len() == 1 ==> r is None && final(self)@ == old(self)@,
    {
        if self.layers.len() > 1 {
            self.layers.pop()
        } else {
            None
        }
    }

    /// Replaces the top layer with a new one in a single step, and returns the
    /// new layer's identity.
    pub fn replace_top(&mut self, content: LayerContent, transparent: bool) -> (id: u64)
        requires
            old(self).wf(),
            old(self)@.next_id < u64::MAX,
        ensures
            final(self).wf(),
            id == old(self)@.next_id,
            final(self)@.next_id == old(self)@.next_id + 1,
            final(self)@.layers == replace_top_spec(
                old(self)@.layers,
                Layer { id, transparent, content },
            ),
    {
        let id = self.next_id;
        let last = self.layers.len() - 1;
        self.layers[last] = Layer { id, transparent, content };
        self.next_id = self.next_id + 1;
        assert(self@.layers =~= replace_top_spec(old(self)@.layers, Layer { id, transparent, content }));
        id
    }

    /// Carries out `effect` on the stack and returns what is left for the caller.
    pub fn apply_effect(&mut self, effect: Effect) -> (r: Command)
        requires
            old(self).wf(),
            old(self)@.next_id < u64::MAX,
        ensures
            final(self).wf(),
            (r, final(self)@) == effect_spec(old(self)@, effect),
    {
        match effect {
            Effect::DrillDown(story) => {
                let layer = self.replace_top(LayerContent::Loading(story.id), true);
                Command::Fetch { layer, story }
            },
            Effect::OpenLink(url) => Command::OpenUrl(url),
            Effect::SwitchToSearch => {
                self.replace_top(LayerContent::Search, true);
                Command::Nothing
            },
            Effect::ShowHelp => {
                self.replace_top(LayerContent::Help, false);
                Command::Nothing
            },
        }
    }

    /// Hands the outcome of the fetch for placeholder `layer` to the stack: that
    /// placeholder becomes the comment view or an error layer. Returns whether it
    /// was still on the stack.
    pub fn complete_fetch(&mut self, layer: u64, outcome: Result<(), String>) -> (r: bool)
        requires
            old(self).wf(),
        ensures
            final(self).wf(),
            final(self)@.next_id == old(self)@.next_id,
            final(self)@.layers == complete_spec(old(self)@.layers, layer, outcome),
            r == exists|i: int| is_placeholder_at(old(self)@.layers, i, layer),
    {
        let n = self.layers.len();
        let mut i: usize = 0;
        while i < n
            invariant
                self@ == old(self)@,
                stack_wf(self@),
                n == self@.layers.len(),
                0 <= i <= n,
                forall|k: int| 0 <= k < i ==> !is_placeholder_at(self@.layers, k, layer),
            decreases n - i,
        {
            let is_loading = match &self.layers[i].content {
                LayerContent::Loading(_) => true,
                _ => false,
            };
            if self.layers[i].id == layer && is_loading {
                let story_id = match &self.layers[i].content {
                    LayerContent::Loading(sid) => *sid,
                    _ => 0,
                };
                let transparent = self.layers[i].transparent;
                let content = match outcome {
                    Ok(_) => LayerContent::Comments(story_id),
                    Err(msg) => LayerContent::Error(msg),
                };
                self.layers[i] = Layer { id: layer, transparent, content };
                proof {
                    let s = old(self)@.layers;
                    assert(is_placeholder_at(s, i as int, layer));
                    let c = choose|j: int| is_placeholder_at(s, j, layer);
                    assert(is_placeholder_at(s, c, layer));
                    assert(s[c].id == s[i as int].id);
                    assert(c == i);
                    assert(self@.layers =~= s.update(i as int, completed_layer(s[i as int], outcome)));
                    assert(forall|k: int| 0 <= k < n ==> #[trigger] self@.layers[k].id == s[k].id);
                }
                return true;
            }
            i = i + 1;
        }
        false
    }
}

/// A drill-down replaces the current layer with a loading placeholder under a
/// fresh identity and asks for its fetch; when that fetch completes, exactly
/// that placeholder becomes the comment view (or, on failure, an error layer
/// with the message), and every layer beneath it stays as it was.
pub proof fn lemma_drill_down_then_complete(
    m: LayerStackModel,
    story: Story,
    outcome: Result<(), String>,
)
    requires
        stack_wf(m),
        m.next_id < u64::MAX,
    ensures
        ({
            let (cmd, m2) = effect_spec(m, Effect::DrillDown(story));
            &&& cmd == (Command::Fetch { layer: m.next_id, story })
            &&& stack_wf(m2)
            &&& complete_spec(m2.layers, m.next_id, outcome) == m.layers.drop_last().push(
                Layer {
                    id: m.next_id,
                    transparent: true,
                    content: match outcome {
                        Ok(_) => LayerContent::Comments(story.id),
                        Err(msg) => LayerContent::Error(msg),
                    },
                },
            )
        }),
{
    let (cmd, m2) = effect_spec(m, Effect::DrillDown(story));
    let s = m2.layers;
    let last = s.len() - 1;
    assert(forall|k: int| 0 <= k < last ==> #[trigger] s[k] == m.layers[k]);
    assert(is_placeholder_at(s, last, m.next_id));
    let c = choose|i: int| is_placeholder_at(s, i, m.next_id);
    assert(is_placeholder_at(s, c, m.next_id));
    if c != last {
        assert(s[c].id < m.next_id);
    }
    assert(s.update(last, completed_layer(s[last], outcome)) =~= m.layers.drop_last().push(
        completed_layer(s[last], outcome),
    ));
}

/// The outcome of a fetch replaces its placeholder where it stands, however
/// many layers have been pushed above it since: the stack keeps its length, and
/// every other layer keeps its identity, its position and its content. A
/// successful fetch gives the comment view of the placeholder's story, a failed
/// one an error layer with the failure's message.
pub proof fn lemma_completion_in_place(
    m: LayerStackModel,
    i: int,
    id: u64,
    outcome: Result<(), String>,
)
    requires
        stack_wf(m),
        is_placeholder_at(m.layers, i, id),
    ensures
        ({
            let after = complete_spec(m.layers, id, outcome);
            &&& after.len() == m.layers.len()
            &&& after[i] == completed_layer(m.layers[i], outcome)
            &&& after[i].id == id
            &&& outcome is Ok ==> after[i].content == LayerContent::Comments(
                m.layers[i].content->Loading_0,
            )
            &&& outcome matches Err(msg) ==> after[i].content == LayerContent::Error(msg)
            &&& forall|k: int| 0 <= k < m.layers.len() && k != i ==> #[trigger] after[k] == m.layers[k]
        }),
{
    let s = m.layers;
    let c = choose|j: int| is_placeholder_at(s, j, id);
    assert(is_placeholder_at(s, c, id));
    assert(c == i);
}

/// The outcome of a fetch whose placeholder is no longer on the stack changes
/// nothing.
pub proof fn lemma_stale_completion(s: Seq<Layer>, id: u64, outcome: Result<(), String>)
    requires
        forall|i: int| 0 <= i < s.len() ==> !is_placeholder_at(s, i, id),
    ensures
        complete_spec(s, id, outcome) == s,
{
}

} // verus!
