//! The tree of agents: each agent's parent and children, the messages
//! queued for it, and the messages appended to its history.
//!
//! Agents are known by their ULID, held as its 128-bit number. The tree
//! keeps its handles in the order they were added; a parent that is in the
//! tree comes before its children, so that an agent's depth is the length
//! of a finite chain of parents.
use vstd::prelude::*;

use crate::text::prefixed;

verus! {

/// A digit of a ULID's text, in Crockford's base-32 alphabet.
pub open spec fn ulid_digit(d: int) -> char {
    seq![
        '0', '1', '2', '3', '4', '5', '6', '7', '8', '9', 'A', 'B', 'C', 'D', 'E', 'F',
        'G', 'H', 'J', 'K', 'M', 'N', 'P', 'Q', 'R', 'S', 'T', 'V', 'W', 'X', 'Y', 'Z',
    ][d]
}

/// The text of a ULID: its 128 bits as 26 base-32 digits, the most
/// significant first.
pub open spec fn ulid_text(id: u128) -> Seq<char> {
    Seq::new(26, |k: int| ulid_digit((id as int / vstd::arithmetic::power::pow(32, (25 - k) as nat)) % 32))
}

/// Calls `ulid::Ulid::new` and takes the ULID's number. Nothing is stated
/// of it: it rests on the clock and on chance.
#[verifier::external_body]
fn fresh_agent_id() -> u128 {
    ulid::Ulid::new().0
}

/// Calls `ToString::to_string` on `ulid::Ulid(id)`, whose `Display` writes
/// the 26 digits that `ulid_text` states.
#[verifier::external_body]
fn agent_id_text(id: u128) -> (res: String)
    ensures
        res@ == ulid_text(id),
{
    ulid::Ulid(id).to_string()
}

/// How a message is delivered to an agent.
#[derive(Debug, Clone, Copy, PartialEq, Eq, Structural)]
pub enum InsertMode {
    /// After the messages already queued.
    Queue,
    /// Before the messages already queued, interrupting the agent's tasks.
    Interrupt,
    /// Appended to the agent's history, not queued.
    Append,
}

impl Default for InsertMode {
    fn default() -> (res: Self)
        ensures
            res == InsertMode::Queue,
    {
        InsertMode::Queue
    }
}

/// A message for an agent.
#[derive(Debug, Clone)]
pub struct QueuedMessage {
    /// The text of the message.
    pub content: String,
    /// How it is delivered.
    pub mode: InsertMode,
    /// The agent it comes from.
    pub from_agent_id: u128,
}

/// What a message holds.
pub struct MessageView {
    pub content: Seq<char>,
    pub mode: InsertMode,
    pub from: u128,
}

/// The view of a message.
pub open spec fn message_view(m: QueuedMessage) -> MessageView {
    MessageView { content: m.content@, mode: m.mode, from: m.from_agent_id }
}

/// The views of messages.
pub open spec fn messages_view(v: Seq<QueuedMessage>) -> Seq<MessageView> {
    v.map_values(|m: QueuedMessage| message_view(m))
}

/// What the tree keeps of an agent.
#[derive(Debug, Clone)]
pub struct AgentHandle {
    /// The agent's id.
    pub id: u128,
    /// Its parent's id; `None` for the root.
    pub parent_id: Option<u128>,
    /// The messages queued for it.
    pub pending_messages: Vec<QueuedMessage>,
    /// The messages appended to its history.
    pub history_messages: Vec<QueuedMessage>,
    /// Its children's ids, in the order they were added.
    pub children: Vec<u128>,
}

/// What a handle holds.
pub struct HandleView {
    pub id: u128,
    pub parent: Option<u128>,
    pub pending: Seq<MessageView>,
    pub history: Seq<MessageView>,
    pub children: Seq<u128>,
}

/// The view of a handle.
pub open spec fn handle_view(h: AgentHandle) -> HandleView {
    HandleView {
        id: h.id,
        parent: h.parent_id,
        pending: messages_view(h.pending_messages@),
        history: messages_view(h.history_messages@),
        children: h.children@,
    }
}

/// The views of handles.
pub open spec fn handles_view(v: Seq<AgentHandle>) -> Seq<HandleView> {
    v.map_values(|h: AgentHandle| handle_view(h))
}

/// Whether an agent with id `id` is in `hs`.
pub open spec fn has_id(hs: Seq<HandleView>, id: u128) -> bool {
    exists|i: int| 0 <= i < hs.len() && #[trigger] hs[i].id == id
}

/// The position of the agent `id` in `hs` (meaningful when it is there).
pub open spec fn index_of(hs: Seq<HandleView>, id: u128) -> int {
    choose|i: int| 0 <= i < hs.len() && #[trigger] hs[i].id == id
}

/// No two handles have the same id.
pub open spec fn distinct_ids(hs: Seq<HandleView>) -> bool {
    forall|i: int, j: int| 0 <= i < j < hs.len() ==> #[trigger] hs[i].id != #[trigger] hs[j].id
}

/// A parent that is in the tree comes before its children.
pub open spec fn parents_first(hs: Seq<HandleView>) -> bool {
    forall|i: int, j: int|
        0 <= i < hs.len() && 0 <= j < hs.len() && #[trigger] hs[i].parent == Some(#[trigger] hs[j].id)
            ==> j < i
}

/// The tree's invariant: distinct ids, the root among them, parents first.
pub open spec fn well_formed(hs: Seq<HandleView>, root: u128) -> bool {
    &&& distinct_ids(hs)
    &&& has_id(hs, root)
    &&& parents_first(hs)
}

/// Whether `id` can name a new agent: no agent has it, as its own id or as
/// its parent's.
pub open spec fn fresh_id(hs: Seq<HandleView>, id: u128) -> bool {
    &&& !has_id(hs, id)
    &&& forall|i: int| 0 <= i < hs.len() ==> #[trigger] hs[i].parent != Some(id)
}

/// The number of parents above the agent at position `i` (see `depth`).
pub open spec fn chain_depth(hs: Seq<HandleView>, i: int) -> nat
    decreases i,
{
    if 0 <= i < hs.len() {
        match hs[i].parent {
            None => 0,
            Some(p) => if has_id(hs, p) && 0 <= index_of(hs, p) < i {
                1 + chain_depth(hs, index_of(hs, p))
            } else {
                1
            },
        }
    } else {
        0
    }
}

/// An agent's depth: how many parents are above it, a parent that is not
/// in the tree counting too; 0 for an agent that is not in the tree.
pub open spec fn depth(hs: Seq<HandleView>, id: u128) -> nat {
    if has_id(hs, id) {
        chain_depth(hs, index_of(hs, id))
    } else {
        0
    }
}

/// The handle of the agent `id`.
pub open spec fn handle_of(hs: Seq<HandleView>, id: u128) -> Option<HandleView> {
    if has_id(hs, id) {
        Some(hs[index_of(hs, id)])
    } else {
        None
    }
}

/// With distinct ids, an agent's position is where its id stands.
pub proof fn lemma_index_of(hs: Seq<HandleView>, i: int)
    requires
        distinct_ids(hs),
        0 <= i < hs.len(),
    ensures
        has_id(hs, hs[i].id),
        index_of(hs, hs[i].id) == i,
{
    assert(hs[i].id == hs[i].id);
    let j = index_of(hs, hs[i].id);
    if j != i {
        if j < i {
            assert(hs[j].id != hs[i].id);
        } else {
            assert(hs[i].id != hs[j].id);
        }
    }
}

/// A depth is at most one more than the position.
pub proof fn lemma_chain_depth_bound(hs: Seq<HandleView>, i: int)
    requires
        0 <= i,
    ensures
        chain_depth(hs, i) <= i + 1,
    decreases i,
{
    if 0 <= i < hs.len() {
        if let Some(p) = hs[i].parent {
            if has_id(hs, p) && 0 <= index_of(hs, p) < i {
                lemma_chain_depth_bound(hs, index_of(hs, p));
            }
        }
    }
}

/// Depths in a prefix do not change when handles with the same ids and
/// parents are followed by others.
pub proof fn lemma_chain_depth_prefix(old_hs: Seq<HandleView>, new_hs: Seq<HandleView>, j: int)
    requires
        old_hs.len() <= new_hs.len(),
        distinct_ids(old_hs),
        distinct_ids(new_hs),
        forall|k: int|
            #![trigger new_hs[k]]
            0 <= k < old_hs.len() ==> new_hs[k].id == old_hs[k].id && new_hs[k].parent == old_hs[k].parent,
        0 <= j < old_hs.len(),
    ensures
        chain_depth(new_hs, j) == chain_depth(old_hs, j),
    decreases j,
{
    assert(new_hs[j].id == old_hs[j].id);
    if let Some(p) = old_hs[j].parent {
        assert(new_hs[j].parent == Some(p));
        if has_id(old_hs, p) {
            let m = index_of(old_hs, p);
            lemma_index_of(old_hs, m);
            assert(new_hs[m].id == p);
            lemma_index_of(new_hs, m);
            if m < j {
                lemma_chain_depth_prefix(old_hs, new_hs, m);
            }
        } else if has_id(new_hs, p) {
            let m = index_of(new_hs, p);
            if m < old_hs.len() {
                assert(old_hs[m].id == p);
            }
        }
    }
}

/// Changing what a handle holds, but for its id and parent, keeps the tree
/// well formed.
pub proof fn lemma_well_formed_update(hs: Seq<HandleView>, root: u128, i: int, h: HandleView)
    requires
        well_formed(hs, root),
        0 <= i < hs.len(),
        h.id == hs[i].id,
        h.parent == hs[i].parent,
    ensures
        well_formed(hs.update(i, h), root),
{
    let nh = hs.update(i, h);
    assert forall|a: int, b: int| 0 <= a < b < nh.len() implies #[trigger] nh[a].id != #[trigger] nh[b].id by {
        assert(nh[a].id == hs[a].id);
        assert(nh[b].id == hs[b].id);
    }
    let r = index_of(hs, root);
    assert(nh[r].id == root);
    assert forall|a: int, b: int|
        0 <= a < nh.len() && 0 <= b < nh.len() && #[trigger] nh[a].parent == Some(#[trigger] nh[b].id)
        implies b < a by {
        assert(nh[a].parent == hs[a].parent);
        assert(nh[b].id == hs[b].id);
    }
}

/// The tree of agents.
pub struct AgentTree {
    handles: Vec<AgentHandle>,
    root_id: u128,
}

/// What the tree holds: its root and its handles in the order they were
/// added.
pub struct TreeView {
    pub root: u128,
    pub handles: Seq<HandleView>,
}

impl View for AgentTree {
    type V = TreeView;

    closed spec fn view(&self) -> TreeView {
        TreeView { root: self.root_id, handles: handles_view(self.handles@) }
    }
}

/// A copy of a message.
fn copy_message(m: &QueuedMessage) -> (res: QueuedMessage)
    ensures
        message_view(res) == message_view(*m),
{
    QueuedMessage { content: m.content.clone(), mode: m.mode, from_agent_id: m.from_agent_id }
}

/// A copy of messages.
fn copy_messages(v: &Vec<QueuedMessage>) -> (res: Vec<QueuedMessage>)
    ensures
        messages_view(res@) == messages_view(v@),
{
    let mut res: Vec<QueuedMessage> = Vec::new();
    let mut i: usize = 0;
    while i < v.len()
        invariant
            i <= v@.len(),
            messages_view(res@) == messages_view(v@.take(i as int)),
        decreases v.len() - i,
    {
        res.push(copy_message(&v[i]));
        assert(messages_view(v@.take(i + 1)) =~= messages_view(v@.take(i as int)).push(
            message_view(v@[i as int]),
        ));
        assert(messages_view(res@) =~= messages_view(v@.take(i + 1)));
        i = i + 1;
    }
    assert(v@.take(v@.len() as int) =~= v@);
    res
}

/// The text that a child's reply becomes: the reply, or `Error: ` and the
/// error's text when the child failed.
pub fn child_response_text(result: Result<String, String>) -> (res: String)
    ensures
        res@ == match result {
            Ok(r) => r@,
            Err(e) => "Error: "@ + e@,
        },
{
    match result {
        Ok(r) => r,
        Err(e) => prefixed("Error: ", e.as_str()),
    }
}

/// The message that carries a child's reply to its parent.
pub open spec fn child_report(child_id: u128, response: Seq<char>, mode: InsertMode) -> MessageView {
    MessageView {
        content: "[from child_"@ + ulid_text(child_id) + "] "@ + response,
        mode,
        from: child_id,
    }
}

/// `after` is `before` with the agent `c` added as a child of `parent_id`:
/// the parent, when it is in the tree, lists `c` last among its children;
/// `c` comes last, with nothing queued and no children, one level below its
/// parent.
pub open spec fn child_added(before: TreeView, after: TreeView, parent_id: u128, c: u128) -> bool {
    &&& after.root == before.root
    &&& after.handles.len() == before.handles.len() + 1
    &&& forall|i: int|
        0 <= i < before.handles.len() ==> #[trigger] after.handles[i] == if before.handles[i].id
            == parent_id {
            HandleView { children: before.handles[i].children.push(c), ..before.handles[i] }
        } else {
            before.handles[i]
        }
    &&& after.handles.last() == (HandleView {
        id: c,
        parent: Some(parent_id),
        pending: seq![],
        history: seq![],
        children: seq![],
    })
    &&& depth(after.handles, c) == if has_id(before.handles, parent_id) {
        depth(before.handles, parent_id) + 1
    } else {
        1
    }
}

impl AgentTree {
    /// The tree's invariant (see `well_formed`).
    pub open spec fn wf(&self) -> bool {
        well_formed(self@.handles, self@.root)
    }

    /// A handle with no parent entry checked, nothing queued and no children.
    fn empty_handle(id: u128, parent_id: Option<u128>) -> (res: AgentHandle)
        ensures
            handle_view(res) == (HandleView {
                id,
                parent: parent_id,
                pending: seq![],
                history: seq![],
                children: seq![],
            }),
    {
        let res = AgentHandle {
            id,
            parent_id,
            pending_messages: Vec::new(),
            history_messages: Vec::new(),
            children: Vec::new(),
        };
        assert(messages_view(res.pending_messages@) =~= seq![]);
        assert(messages_view(res.history_messages@) =~= seq![]);
        res
    }

    /// A tree with only the root `root_id`.
    pub fn with_root(root_id: u128) -> (res: Self)
        ensures
            res.wf(),
            res@.root == root_id,
            res@.handles == seq![HandleView {
                id: root_id,
                parent: None,
                pending: seq![],
                history: seq![],
                children: seq![],
            }],
    {
        let mut handles: Vec<AgentHandle> = Vec::new();
        handles.push(AgentTree::empty_handle(root_id, None));
        let ghost hv = handles_view(handles@);
        assert(hv[0].id == root_id);
        assert(hv =~= seq![HandleView {
            id: root_id,
            parent: None,
            pending: seq![],
            history: seq![],
            children: seq![],
        }]);
        AgentTree { handles, root_id }
    }

    /// A tree with only a root, whose id is a new ULID.
    pub fn new() -> (res: Self)
        ensures
            res.wf(),
            res@.handles == seq![HandleView {
                id: res@.root,
                parent: None,
                pending: seq![],
                history: seq![],
                children: seq![],
            }],
    {
        AgentTree::with_root(fresh_agent_id())
    }

    /// The root's id.
    pub fn root_id(&self) -> (res: u128)
        requires
            self.wf(),
        ensures
            res == self@.root,
    {
        self.root_id
    }

    /// The position of the agent `id`, if it is in the tree.
    fn find(&self, id: u128) -> (res: Option<usize>)
        requires
            self.wf(),
        ensures
            match res {
                Some(i) => i < self@.handles.len() && self@.handles[i as int].id == id
                    && index_of(self@.handles, id) == i && has_id(self@.handles, id),
                None => !has_id(self@.handles, id),
            },
    {
        let ghost hs = self@.handles;
        let mut i: usize = 0;
        while i < self.handles.len()
            invariant
                hs == handles_view(self.handles@),
                distinct_ids(hs),
                i <= hs.len(),
                forall|k: int| 0 <= k < i ==> #[trigger] hs[k].id != id,
            decreases self.handles.len() - i,
        {
            if self.handles[i].id == id {
                proof {
                    lemma_index_of(hs, i as int);
                }
                return Some(i);
            }
            i = i + 1;
        }
        None
    }

    /// Whether `id` can name a new agent (see `fresh_id`).
    pub fn is_fresh_id(&self, id: u128) -> (res: bool)
        requires
            self.wf(),
        ensures
            res == fresh_id(self@.handles, id),
    {
        let ghost hs = self@.handles;
        if self.find(id).is_some() {
            return false;
        }
        let mut i: usize = 0;
        while i < self.handles.len()
            invariant
                hs == handles_view(self.handles@),
                !has_id(hs, id),
                i <= hs.len(),
                forall|k: int| 0 <= k < i ==> #[trigger] hs[k].parent != Some(id),
            decreases self.handles.len() - i,
        {
            if self.handles[i].parent_id == Some(id) {
                assert(hs[i as int].parent == Some(id));
                return false;
            }
            i = i + 1;
        }
        true
    }

    /// Adds the agent `child_id` as a child of `parent_id`, and returns its
    /// id; the parent, when it is in the tree, lists it last among its
    /// children. A new agent is one level below its parent.
    pub fn add_child_with_id(&mut self, parent_id: u128, child_id: u128) -> (res: u128)
        requires
            old(self).wf(),
            fresh_id(old(self)@.handles, child_id),
            child_id != parent_id,
        ensures
            final(self).wf(),
            res == child_id,
            final(self)@.root == old(self)@.root,
            final(self)@.handles.len() == old(self)@.handles.len() + 1,
            forall|i: int|
                0 <= i < old(self)@.handles.len() ==> #[trigger] final(self)@.handles[i] == if old(
                    self,
                )@.handles[i].id == parent_id {
                    HandleView {
                        children: old(self)@.handles[i].children.push(child_id),
                        ..old(self)@.handles[i]
                    }
                } else {
                    old(self)@.handles[i]
                },
            final(self)@.handles.last() == (HandleView {
                id: child_id,
                parent: Some(parent_id),
                pending: seq![],
                history: seq![],
                children: seq![],
            }),
            depth(final(self)@.handles, child_id) == if has_id(old(self)@.handles, parent_id) {
                depth(old(self)@.handles, parent_id) + 1
            } else {
                1
            },
    {
        let ghost old_hs = self@.handles;
        let found = self.find(parent_id);
        let ghost n = old_hs.len();
        let ghost mid = match found {
            Some(k) => old_hs.update(k as int, HandleView { children: old_hs[k as int].children.push(child_id), ..old_hs[k as int] }),
            None => old_hs,
        };
        let ghost new_hs = mid.push(HandleView {
            id: child_id,
            parent: Some(parent_id),
            pending: seq![],
            history: seq![],
            children: seq![],
        });
        proof {
            assert forall|k: int| 0 <= k < n implies #[trigger] new_hs[k].id == old_hs[k].id && new_hs[k].parent == old_hs[k].parent by {}
            assert(new_hs[n as int].id == child_id);
            assert forall|i: int, j: int| 0 <= i < j < new_hs.len() implies #[trigger] new_hs[i].id != #[trigger] new_hs[j].id by {
                if j == n {
                    assert(old_hs[i].id != child_id);
                } else {
                    assert(old_hs[i].id != old_hs[j].id);
                }
            }
            assert forall|i: int, j: int|
                0 <= i < new_hs.len() && 0 <= j < new_hs.len() && #[trigger] new_hs[i].parent == Some(#[trigger] new_hs[j].id)
                implies j < i by {
                if i == n {
                    if j == n {
                        assert(new_hs[n as int].parent == Some(parent_id));
                    }
                } else if j == n {
                    assert(old_hs[i].parent != Some(child_id));
                } else {
                    assert(old_hs[i].parent == Some(old_hs[j].id));
                }
            }
            let r = index_of(old_hs, self.root_id);
            assert(new_hs[r].id == self.root_id);
            assert(has_id(new_hs, self.root_id));
            assert(well_formed(new_hs, self.root_id));
        }
        match found {
            Some(k) => {
                self.handles[k].children.push(child_id);
            },
            None => {},
        }
        self.handles.push(AgentTree::empty_handle(child_id, Some(parent_id)));
        proof {
            assert(handles_view(self.handles@) =~= new_hs);
            lemma_index_of(new_hs, n as int);
            if has_id(old_hs, parent_id) {
                let m = index_of(old_hs, parent_id);
                lemma_index_of(old_hs, m);
                assert(new_hs[m].id == parent_id);
                lemma_index_of(new_hs, m);
                lemma_chain_depth_prefix(old_hs, new_hs, m);
            } else if has_id(new_hs, parent_id) {
                let m = index_of(new_hs, parent_id);
                if m < n {
                    assert(old_hs[m].id == parent_id);
                }
            }
        }
        child_id
    }

    /// Adds a child of `parent_id` under the id `drawn`, when it can name a
    /// new agent: it differs from the parent and is fresh (see `fresh_id`).
    /// Otherwise returns `None` and leaves the tree unchanged.
    pub fn add_child_drawn(&mut self, parent_id: u128, drawn: u128) -> (res: Option<u128>)
        requires
            old(self).wf(),
        ensures
            final(self).wf(),
            res is Some <==> (drawn != parent_id && fresh_id(old(self)@.handles, drawn)),
            match res {
                Some(c) => c == drawn && child_added(old(self)@, final(self)@, parent_id, c),
                None => final(self)@ == old(self)@,
            },
    {
        if drawn == parent_id || !self.is_fresh_id(drawn) {
            return None;
        }
        Some(self.add_child_with_id(parent_id, drawn))
    }

    /// Adds a child of `parent_id` under a new ULID, and returns its id;
    /// `None`, with the tree unchanged, when the ULID drawn cannot name a
    /// new agent (see `add_child_drawn`).
    pub fn add_child_async(&mut self, parent_id: u128) -> (res: Option<u128>)
        requires
            old(self).wf(),
        ensures
            final(self).wf(),
            match res {
                Some(c) => {
                    &&& fresh_id(old(self)@.handles, c)
                    &&& c != parent_id
                    &&& child_added(old(self)@, final(self)@, parent_id, c)
                },
                None => final(self)@ == old(self)@,
            },
    {
        let drawn = fresh_agent_id();
        self.add_child_drawn(parent_id, drawn)
    }

    /// The parent of the agent `id`.
    pub fn get_parent_id(&self, id: u128) -> (res: Option<u128>)
        requires
            self.wf(),
        ensures
            res == match handle_of(self@.handles, id) {
                Some(h) => h.parent,
                None => None,
            },
    {
        match self.find(id) {
            Some(i) => self.handles[i].parent_id,
            None => None,
        }
    }

    /// The depth of the agent `id` (see `depth`).
    pub fn get_agent_depth(&self, id: u128) -> (res: usize)
        requires
            self.wf(),
        ensures
            res == depth(self@.handles, id),
    {
        let ghost hs = self@.handles;
        let ghost target = depth(hs, id);
        proof {
            if has_id(hs, id) {
                lemma_chain_depth_bound(hs, index_of(hs, id));
            }
        }
        let n = self.handles.len();
        let mut d: usize = 0;
        let mut current: Option<u128> = Some(id);
        loop
            invariant
                self.wf(),
                hs == self@.handles,
                well_formed(hs, self@.root),
                hs.len() == self.handles@.len(),
                d + match current {
                    Some(c) => depth(hs, c),
                    None => 0,
                } == target,
                target <= n,
                n == hs.len(),
            ensures
                d == target,
            decreases match current {
                Some(c) => if has_id(hs, c) {
                    index_of(hs, c) + 2
                } else {
                    1
                },
                None => 0,
            },
        {
            match current {
                None => {
                    break;
                },
                Some(c) => {
                    match self.find(c) {
                        None => {
                            break;
                        },
                        Some(i) => {
                            let p = self.handles[i].parent_id;
                            proof {
                                if let Some(q) = p {
                                    assert(hs[i as int].parent == Some(q));
                                    if has_id(hs, q) {
                                        let m = index_of(hs, q);
                                        assert(hs[m].id == q);
                                        assert(m < i);
                                        lemma_chain_depth_bound(hs, m);
                                    }
                                }
                            }
                            current = p;
                            if current.is_some() {
                                d = d + 1;
                            }
                        },
                    }
                },
            }
        }
        d
    }

    /// The number of children of the agent `parent_id`; 0 when it is not
    /// in the tree.
    pub fn get_children_count(&self, parent_id: u128) -> (res: usize)
        requires
            self.wf(),
        ensures
            res == match handle_of(self@.handles, parent_id) {
                Some(h) => h.children.len(),
                None => 0,
            },
    {
        match self.find(parent_id) {
            Some(i) => self.handles[i].children.len(),
            None => 0,
        }
    }

    /// Delivers `message` to the agent `target_id` as its mode says: queued
    /// last, queued first, or appended to the history. Returns whether the
    /// agent's running tasks are to be aborted, as an interruption asks.
    /// Nothing changes when the agent is not in the tree.
    pub fn add_pending_message(&mut self, target_id: u128, message: QueuedMessage) -> (abort: bool)
        requires
            old(self).wf(),
        ensures
            final(self).wf(),
            final(self)@.root == old(self)@.root,
            !has_id(old(self)@.handles, target_id) ==> final(self)@.handles == old(self)@.handles && !abort,
            has_id(old(self)@.handles, target_id) ==> {
                let i = index_of(old(self)@.handles, target_id);
                let h = old(self)@.handles[i];
                let m = message_view(message);
                &&& abort == (message.mode == InsertMode::Interrupt)
                &&& final(self)@.handles == old(self)@.handles.update(
                    i,
                    match message.mode {
                        InsertMode::Queue => HandleView { pending: h.pending.push(m), ..h },
                        InsertMode::Interrupt => HandleView { pending: seq![m] + h.pending, ..h },
                        InsertMode::Append => HandleView { history: h.history.push(m), ..h },
                    },
                )
            },
    {
        let ghost old_hs = self@.handles;
        let ghost m = message_view(message);
        match self.find(target_id) {
            None => false,
            Some(i) => {
                let ghost h = old_hs[i as int];
                let mode = message.mode;
                match mode {
                    InsertMode::Queue => {
                        let ghost ov = self.handles@;
                        self.handles[i].pending_messages.push(message);
                        assert(messages_view(self.handles@[i as int].pending_messages@) =~= h.pending.push(m));
                        assert(forall|k: int| 0 <= k < ov.len() && k != i ==> self.handles@[k] == ov[k]);
                        assert(handles_view(self.handles@) =~= old_hs.update(
                            i as int,
                            HandleView { pending: h.pending.push(m), ..h },
                        ));
                        proof {
                            lemma_well_formed_update(old_hs, self.root_id, i as int, HandleView { pending: h.pending.push(m), ..h });
                        }
                        false
                    },
                    InsertMode::Interrupt => {
                        let ghost ov = self.handles@;
                        self.handles[i].pending_messages.insert(0, message);
                        assert(messages_view(self.handles@[i as int].pending_messages@) =~= seq![m] + h.pending);
                        assert(forall|k: int| 0 <= k < ov.len() && k != i ==> self.handles@[k] == ov[k]);
                        assert(handles_view(self.handles@) =~= old_hs.update(
                            i as int,
                            HandleView { pending: seq![m] + h.pending, ..h },
                        ));
                        proof {
                            lemma_well_formed_update(old_hs, self.root_id, i as int, HandleView { pending: seq![m] + h.pending, ..h });
                        }
                        true
                    },
                    InsertMode::Append => {
                        let ghost ov = self.handles@;
                        self.handles[i].history_messages.push(message);
                        assert(messages_view(self.handles@[i as int].history_messages@) =~= h.history.push(m));
                        assert(forall|k: int| 0 <= k < ov.len() && k != i ==> self.handles@[k] == ov[k]);
                        assert(handles_view(self.handles@) =~= old_hs.update(
                            i as int,
                            HandleView { history: h.history.push(m), ..h },
                        ));
                        proof {
                            lemma_well_formed_update(old_hs, self.root_id, i as int, HandleView { history: h.history.push(m), ..h });
                        }
                        false
                    },
                }
            },
        }
    }

    /// The messages appended to the history of the agent `id`; none when it
    /// is not in the tree.
    pub fn get_history_messages(&self, id: u128) -> (res: Vec<QueuedMessage>)
        requires
            self.wf(),
        ensures
            messages_view(res@) == match handle_of(self@.handles, id) {
                Some(h) => h.history,
                None => seq![],
            },
    {
        match self.find(id) {
            Some(i) => copy_messages(&self.handles[i].history_messages),
            None => {
                let res: Vec<QueuedMessage> = Vec::new();
                assert(messages_view(res@) =~= seq![]);
                res
            },
        }
    }

    /// Empties the history of the agent `id`.
    pub fn clear_history_messages(&mut self, id: u128)
        requires
            old(self).wf(),
        ensures
            final(self).wf(),
            final(self)@.root == old(self)@.root,
            !has_id(old(self)@.handles, id) ==> final(self)@.handles == old(self)@.handles,
            has_id(old(self)@.handles, id) ==> {
                let i = index_of(old(self)@.handles, id);
                final(self)@.handles == old(self)@.handles.update(
                    i,
                    HandleView { history: seq![], ..old(self)@.handles[i] },
                )
            },
    {
        let ghost old_hs = self@.handles;
        match self.find(id) {
            None => {},
            Some(i) => {
                let ghost ov = self.handles@;
                self.handles[i].history_messages.clear();
                assert(messages_view(self.handles@[i as int].history_messages@) =~= seq![]);
                assert(forall|k: int| 0 <= k < ov.len() && k != i ==> self.handles@[k] == ov[k]);
                assert(handles_view(self.handles@) =~= old_hs.update(
                    i as int,
                    HandleView { history: seq![], ..old_hs[i as int] },
                ));
                proof {
                    lemma_well_formed_update(old_hs, self.root_id, i as int, HandleView { history: seq![], ..old_hs[i as int] });
                }
            },
        }
    }

    /// Takes the messages queued for the agent `id`, in order, and leaves
    /// none queued.
    pub fn drain_pending_messages(&mut self, id: u128) -> (res: Vec<QueuedMessage>)
        requires
            old(self).wf(),
        ensures
            final(self).wf(),
            final(self)@.root == old(self)@.root,
            !has_id(old(self)@.handles, id) ==> final(self)@.handles == old(self)@.handles
                && res@.len() == 0,
            has_id(old(self)@.handles, id) ==> {
                let i = index_of(old(self)@.handles, id);
                &&& messages_view(res@) == old(self)@.handles[i].pending
                &&& final(self)@.handles == old(self)@.handles.update(
                    i,
                    HandleView { pending: seq![], ..old(self)@.handles[i] },
                )
                &&& handle_of(final(self)@.handles, id) matches Some(h) && h.pending.len() == 0
            },
    {
        let ghost old_hs = self@.handles;
        match self.find(id) {
            None => Vec::new(),
            Some(i) => {
                let res = copy_messages(&self.handles[i].pending_messages);
                let ghost ov = self.handles@;
                self.handles[i].pending_messages.clear();
                assert(messages_view(self.handles@[i as int].pending_messages@) =~= seq![]);
                assert(forall|k: int| 0 <= k < ov.len() && k != i ==> self.handles@[k] == ov[k]);
                assert(handles_view(self.handles@) =~= old_hs.update(
                    i as int,
                    HandleView { pending: seq![], ..old_hs[i as int] },
                ));
                proof {
                    law_drained_queue_is_empty(old_hs, self.root_id, id);
                }
                res
            },
        }
    }

    /// Queues a child's reply for its parent: `[from child_<id>] ` and the
    /// reply, last among the parent's pending messages, with the given
    /// mode. Nothing changes when the child or its parent is not in the
    /// tree.
    pub fn deliver_child_response(&mut self, child_id: u128, response: &str, insert_mode: InsertMode)
        requires
            old(self).wf(),
        ensures
            final(self).wf(),
            final(self)@.root == old(self)@.root,
            match handle_of(old(self)@.handles, child_id) {
                Some(c) => match c.parent {
                    Some(p) => has_id(old(self)@.handles, p) ==> {
                        let i = index_of(old(self)@.handles, p);
                        let q = final(self)@.handles[i].pending;
                        &&& q.len() == old(self)@.handles[i].pending.len() + 1
                        &&& q.last().mode == insert_mode
                        &&& q.last().from == child_id
                        &&& q.last().content == "[from child_"@ + ulid_text(child_id) + "] "@ + response@
                    },
                    None => true,
                },
                None => true,
            },
            match handle_of(old(self)@.handles, child_id) {
                Some(c) => match c.parent {
                    Some(p) => if has_id(old(self)@.handles, p) {
                        let i = index_of(old(self)@.handles, p);
                        final(self)@.handles == old(self)@.handles.update(
                            i,
                            HandleView {
                                pending: old(self)@.handles[i].pending.push(
                                    child_report(child_id, response@, insert_mode),
                                ),
                                ..old(self)@.handles[i]
                            },
                        )
                    } else {
                        final(self)@.handles == old(self)@.handles
                    },
                    None => final(self)@.handles == old(self)@.handles,
                },
                None => final(self)@.handles == old(self)@.handles,
            },
    {
        let ghost old_hs = self@.handles;
        let parent = match self.get_parent_id(child_id) {
            Some(p) => p,
            None => {
                return;
            },
        };
        match self.find(parent) {
            None => {},
            Some(i) => {
                let mut content = "[from child_".to_owned();
                let id_text = agent_id_text(child_id);
                content.append(id_text.as_str());
                content.append("] ");
                content.append(response);
                let msg = QueuedMessage { content, mode: insert_mode, from_agent_id: child_id };
                let ghost m = message_view(msg);
                assert(m == child_report(child_id, response@, insert_mode));
                let ghost ov = self.handles@;
                self.handles[i].pending_messages.push(msg);
                assert(messages_view(self.handles@[i as int].pending_messages@) =~= old_hs[i as int].pending.push(m));
                assert(forall|k: int| 0 <= k < ov.len() && k != i ==> self.handles@[k] == ov[k]);
                assert(handles_view(self.handles@) =~= old_hs.update(
                    i as int,
                    HandleView { pending: old_hs[i as int].pending.push(m), ..old_hs[i as int] },
                ));
                proof {
                    lemma_well_formed_update(old_hs, self.root_id, i as int, HandleView { pending: old_hs[i as int].pending.push(m), ..old_hs[i as int] });
                }
            },
        }
    }
}

/// Once an agent's queue is drained, it is empty: draining again gives
/// nothing, and the tree stays well formed.
pub proof fn law_drained_queue_is_empty(hs: Seq<HandleView>, root: u128, id: u128)
    requires
        well_formed(hs, root),
        has_id(hs, id),
    ensures
        ({
            let i = index_of(hs, id);
            let drained = hs.update(i, HandleView { pending: seq![], ..hs[i] });
            &&& well_formed(drained, root)
            &&& handle_of(drained, id) matches Some(h) && h.pending.len() == 0
        }),
{
    let i = index_of(hs, id);
    let drained = hs.update(i, HandleView { pending: seq![], ..hs[i] });
    lemma_well_formed_update(hs, root, i, HandleView { pending: seq![], ..hs[i] });
    assert(drained[i].id == id);
    lemma_index_of(drained, i);
}

/// An interrupting message is taken before every message queued earlier,
/// a queued one after them.
pub proof fn law_queue_order(h: HandleView, m: MessageView)
    ensures
        (HandleView { pending: seq![m] + h.pending, ..h }).pending[0] == m,
        (HandleView { pending: h.pending.push(m), ..h }).pending.last() == m,
        (HandleView { pending: h.pending.push(m), ..h }).pending.drop_last() == h.pending,
        (HandleView { pending: seq![m] + h.pending, ..h }).pending.drop_first() == h.pending,
{
    assert((h.pending.push(m)).drop_last() =~= h.pending);
    assert((seq![m] + h.pending).drop_first() =~= h.pending);
}

/// The report of a child's reply carries the mode that was asked for, the
/// child as its sender, and the reply after the child's tag.
pub proof fn law_child_report_fields(child_id: u128, response: Seq<char>, mode: InsertMode)
    ensures
        child_report(child_id, response, mode).mode == mode,
        child_report(child_id, response, mode).from == child_id,
        child_report(child_id, response, mode).content == "[from child_"@ + ulid_text(child_id) + "] "@
            + response,
        forall|m2: InsertMode| #![trigger child_report(child_id, response, m2)]
            m2 != mode ==> child_report(child_id, response, m2) != child_report(child_id, response, mode),
{
}

} // verus!
