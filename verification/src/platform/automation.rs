//! Finding the input of the Codex window, for the carrier that types.

use vstd::prelude::*;

use crate::text::{
    cat, cat3, contains, decimal, join, joined, lower, lowercase, number_text, occurs, opt, same,
    views,
};

verus! {

/// Why the prompt could not be typed.
#[derive(Clone, Debug, PartialEq, Eq)]
pub enum AutomationError {
    Unavailable(String),
    Failed(String),
}

impl AutomationError {
    /// The text of the error.
    pub open spec fn text(self) -> Seq<char> {
        match self {
            AutomationError::Unavailable(text) => "GUI fallback is unavailable: "@ + text@,
            AutomationError::Failed(text) => "GUI fallback failed: "@ + text@,
        }
    }

    /// The text of the error.
    pub fn message(&self) -> (r: String)
        ensures
            r@ == self.text(),
    {
        match self {
            AutomationError::Unavailable(text) => cat(
                "GUI fallback is unavailable: ",
                text.as_str(),
            ),
            AutomationError::Failed(text) => cat("GUI fallback failed: ", text.as_str()),
        }
    }
}

/// Whether typing is possible in a Linux session: not under Wayland, and only
/// with an X11 display.
pub fn linux_session_usable(wayland: bool, has_display: bool) -> (r: Result<(), AutomationError>)
    ensures
        r is Ok == (!wayland && has_display),
        r matches Err(error) ==> error.text() == "GUI fallback is unavailable: "@ + (if wayland {
            "Wayland global input injection is intentionally disabled; use app-server"@
        } else {
            "X11 DISPLAY is unavailable; use app-server"@
        }),
{
    if wayland {
        return Err(
            AutomationError::Unavailable(
                "Wayland global input injection is intentionally disabled; use app-server".to_owned(),
            ),
        );
    }
    if !has_display {
        return Err(
            AutomationError::Unavailable("X11 DISPLAY is unavailable; use app-server".to_owned()),
        );
    }
    Ok(())
}

/// The texts by which an element is recognised, as one text in lower case.
pub fn element_identity(fields: &Vec<String>) -> (r: String)
    ensures
        r@ == lowercase(joined(views(fields@), " "@)),
{
    lower(join(fields, " ").as_str())
}

/// Whether a text holds one of the hints.
pub open spec fn hinted(identity: Seq<char>, hints: Seq<Seq<char>>) -> bool {
    exists|i: int| 0 <= i < hints.len() && occurs(identity, #[trigger] hints[i])
}

/// Whether a text holds one of the hints.
pub fn contains_hint(identity: &str, hints: &Vec<&'static str>) -> (r: bool)
    ensures
        r == hinted(identity@, views(hints@)),
{
    let ghost all = views(hints@);
    let mut i: usize = 0;
    while i < hints.len()
        invariant
            i <= hints@.len(),
            all == views(hints@),
            forall|k: int| 0 <= k < i ==> !occurs(identity@, #[trigger] all[k]),
        decreases hints.len() - i,
    {
        assert(all[i as int] == hints@[i as int]@);
        if contains(identity, hints[i]) {
            return true;
        }
        i = i + 1;
    }
    false
}

/// Whether a text names this program.
pub open spec fn names_longwatch(identity: Seq<char>) -> bool {
    occurs(identity, "codexqueue"@) || occurs(identity, "longwatch"@) || occurs(
        identity,
        "codex queue"@,
    )
}

/// Whether a text names Codex, and not this program.
pub open spec fn names_codex(identity: Seq<char>) -> bool {
    !names_longwatch(identity) && (occurs(identity, "codex"@) || occurs(identity, "chatgpt"@))
}

/// Whether an application or window is Codex.
pub fn is_codex_application(identity: &str) -> (r: bool)
    ensures
        r == names_codex(identity@),
{
    !contains(identity, "codexqueue") && !contains(identity, "longwatch") && !contains(
        identity,
        "codex queue",
    ) && (contains(identity, "codex") || contains(identity, "chatgpt"))
}

/// Whether a window of Windows is that of Codex, by its name.
pub fn is_codex_window(name: &str) -> (r: bool)
    ensures
        r == (occurs(lowercase(name@), "codex"@) && !names_longwatch(lowercase(name@))),
{
    let lowered = lower(name);
    let name = lowered.as_str();
    contains(name, "codex") && !contains(name, "codexqueue") && !contains(name, "longwatch")
        && !contains(name, "codex queue")
}

/// The words that are expected near the input of a Linux application.
pub open spec fn composer_hints() -> Seq<Seq<char>> {
    seq![
        "message"@,
        "prompt"@,
        "composer"@,
        "ask"@,
        "codex"@,
        "task"@,
        "write"@,
        "input"@,
        "任务"@,
        "消息"@,
        "提示"@,
        "输入"@,
    ]
}

fn linux_hints() -> (r: Vec<&'static str>)
    ensures
        views(r@) == composer_hints(),
{
    let mut hints: Vec<&'static str> = Vec::new();
    hints.push("message");
    hints.push("prompt");
    hints.push("composer");
    hints.push("ask");
    hints.push("codex");
    hints.push("task");
    hints.push("write");
    hints.push("input");
    hints.push("任务");
    hints.push("消息");
    hints.push("提示");
    hints.push("输入");
    assert(views(hints@) =~= composer_hints());
    hints
}

/// What an element of a Linux application is.
#[derive(Clone, Copy, Debug, PartialEq, Eq, Structural)]
pub enum NodeRole {
    PasswordText,
    Entry,
    Text,
    DocumentText,
    Paragraph,
    Other,
}

/// What is known of an element of a Linux application.
#[derive(Debug)]
pub struct AccessibleNode {
    pub editable_text: bool,
    pub component: bool,
    pub role: NodeRole,
    pub defunct: bool,
    pub read_only: bool,
    pub editable: bool,
    pub multi_line: bool,
    pub focused: bool,
    pub focusable: bool,
    pub visible: bool,
    pub showing: bool,
    /// The texts of the element in lower case.
    pub identity: String,
}

/// What is known of an element speaks for so much.
pub open spec fn worth(holds: bool, points: int) -> int {
    if holds {
        points
    } else {
        0
    }
}

impl AccessibleNode {
    /// Whether text can be put into the element.
    pub open spec fn usable(self) -> bool {
        &&& self.editable_text
        &&& self.component
        &&& self.role != NodeRole::PasswordText
        &&& !self.defunct
        &&& !self.read_only
    }

    /// How likely the element is the input of Codex.
    pub open spec fn score(self) -> int {
        (match self.role {
            NodeRole::Entry => 80int,
            NodeRole::Text | NodeRole::DocumentText => 55int,
            NodeRole::Paragraph => 35int,
            _ => 20int,
        }) + worth(self.editable, 30) + worth(self.multi_line, 25) + worth(self.focused, 20)
            + worth(self.focusable, 10) + worth(self.visible && self.showing, 10) + worth(
            hinted(self.identity@, composer_hints()),
            60,
        )
    }
}

/// How likely an element is the input of Codex; nothing where no text can be
/// put into it.
pub fn candidate_score(node: &AccessibleNode) -> (r: Option<i32>)
    ensures
        r is Some == node.usable(),
        r matches Some(score) ==> score == node.score(),
{
    if !node.editable_text || !node.component {
        return None;
    }
    if node.role == NodeRole::PasswordText {
        return None;
    }
    if node.defunct || node.read_only {
        return None;
    }
    let mut score: i32 = match node.role {
        NodeRole::Entry => 80,
        NodeRole::Text | NodeRole::DocumentText => 55,
        NodeRole::Paragraph => 35,
        _ => 20,
    };
    if node.editable {
        score = score + 30;
    }
    if node.multi_line {
        score = score + 25;
    }
    if node.focused {
        score = score + 20;
    }
    if node.focusable {
        score = score + 10;
    }
    if node.visible && node.showing {
        score = score + 10;
    }
    if contains_hint(node.identity.as_str(), &linux_hints()) {
        score = score + 60;
    }
    Some(score)
}

/// The candidates with one more: after all that are as likely or likelier.
pub open spec fn rank_insert(candidates: Seq<(i32, u64)>, candidate: (i32, u64)) -> Seq<(i32, u64)>
    decreases candidates.len(),
{
    if candidates.len() > 0 && candidates.last().0 < candidate.0 {
        rank_insert(candidates.drop_last(), candidate).push(candidates.last())
    } else {
        candidates.push(candidate)
    }
}

/// The candidates, the likeliest first; equally likely ones keep their order.
pub open spec fn ranked(candidates: Seq<(i32, u64)>) -> Seq<(i32, u64)>
    decreases candidates.len(),
{
    if candidates.len() == 0 {
        Seq::empty()
    } else {
        rank_insert(ranked(candidates.drop_last()), candidates.last())
    }
}

/// Whether no candidate is likelier than one before it.
pub open spec fn descending(candidates: Seq<(i32, u64)>) -> bool {
    forall|i: int, j: int|
        0 <= i < j < candidates.len() ==> (#[trigger] candidates[i]).0 >= (
        #[trigger] candidates[j]).0
}

proof fn rank_insert_keeps_order(candidates: Seq<(i32, u64)>, candidate: (i32, u64))
    requires
        descending(candidates),
    ensures
        descending(rank_insert(candidates, candidate)),
        rank_insert(candidates, candidate).to_multiset() == candidates.to_multiset().insert(
            candidate,
        ),
        rank_insert(candidates, candidate).len() == candidates.len() + 1,
        forall|i: int|
            0 <= i < rank_insert(candidates, candidate).len() ==> rank_insert(
                candidates,
                candidate,
            )[i] == candidate || candidates.contains(
                #[trigger] rank_insert(candidates, candidate)[i],
            ),
    decreases candidates.len(),
{
    broadcast use vstd::seq_lib::group_to_multiset_ensures;

    let all = rank_insert(candidates, candidate);
    if candidates.len() > 0 && candidates.last().0 < candidate.0 {
        let front = candidates.drop_last();
        rank_insert_keeps_order(front, candidate);
        let inner = rank_insert(front, candidate);
        assert(candidates =~= front.push(candidates.last()));
        assert forall|i: int| 0 <= i < all.len() implies all[i] == candidate
            || candidates.contains(#[trigger] all[i]) by {
            if i < inner.len() {
                assert(all[i] == inner[i]);
                if inner[i] != candidate {
                    let k = choose|k: int| 0 <= k < front.len() && front[k] == inner[i];
                    assert(candidates[k] == inner[i]);
                }
            } else {
                assert(candidates[candidates.len() - 1] == all[i]);
            }
        }
        assert forall|i: int, j: int| 0 <= i < j < all.len() implies (#[trigger] all[i]).0 >= (
        #[trigger] all[j]).0 by {
            if j == inner.len() {
                if inner[i] != candidate {
                    let k = choose|k: int| 0 <= k < front.len() && front[k] == inner[i];
                    assert(candidates[k].0 >= candidates[candidates.len() - 1].0);
                }
            }
        }
    } else {
        assert forall|i: int| 0 <= i < all.len() implies all[i] == candidate
            || candidates.contains(#[trigger] all[i]) by {
            if i < candidates.len() {
                assert(candidates[i] == all[i]);
            }
        }
        assert forall|i: int, j: int| 0 <= i < j < all.len() implies (#[trigger] all[i]).0 >= (
        #[trigger] all[j]).0 by {
            if j == candidates.len() && i < candidates.len() - 1 {
                assert(candidates[i].0 >= candidates[candidates.len() - 1].0);
            }
        }
    }
}

/// Ranking loses no candidate, invents none, and puts the likeliest first.
pub proof fn ranking_is_a_sort(candidates: Seq<(i32, u64)>)
    ensures
        descending(ranked(candidates)),
        ranked(candidates).to_multiset() == candidates.to_multiset(),
        ranked(candidates).len() == candidates.len(),
    decreases candidates.len(),
{
    broadcast use vstd::seq_lib::group_to_multiset_ensures;

    if candidates.len() > 0 {
        let front = candidates.drop_last();
        ranking_is_a_sort(front);
        rank_insert_keeps_order(ranked(front), candidates.last());
        assert(candidates =~= front.push(candidates.last()));
    } else {
        assert(candidates =~= Seq::empty());
    }
}

/// Puts the likeliest candidates first.
pub fn rank_candidates(candidates: &Vec<(i32, u64)>) -> (r: Vec<(i32, u64)>)
    ensures
        r@ == ranked(candidates@),
{
    let mut out: Vec<(i32, u64)> = Vec::new();
    let mut i: usize = 0;
    assert(candidates@.take(0) =~= Seq::empty());
    while i < candidates.len()
        invariant
            i <= candidates@.len(),
            out@ == ranked(candidates@.take(i as int)),
        decreases candidates.len() - i,
    {
        assert(candidates@.take(i + 1).drop_last() =~= candidates@.take(i as int));
        let candidate = candidates[i];
        let ghost before = out@;
        let mut at: usize = out.len();
        assert(before.take(at as int) =~= before);
        assert(rank_insert(before, candidate) + Seq::empty() =~= rank_insert(before, candidate));
        assert(before.skip(at as int) =~= Seq::empty());
        while at > 0 && out[at - 1].0 < candidate.0
            invariant
                at <= out@.len(),
                out@ == before,
                rank_insert(before.take(at as int), candidate) + before.skip(at as int)
                    == rank_insert(before, candidate),
            decreases at,
        {
            let ghost front = before.take(at as int);
            assert(front.drop_last() =~= before.take(at - 1));
            assert(seq![before[at - 1]] + before.skip(at as int) =~= before.skip(at - 1));
            assert(rank_insert(before.take(at - 1), candidate).push(before[at - 1]) + before.skip(
                at as int,
            ) =~= rank_insert(before.take(at - 1), candidate) + before.skip(at - 1));
            at = at - 1;
        }
        out.insert(at, candidate);
        assert(out@ =~= before.take(at as int).push(candidate) + before.skip(at as int));
        i = i + 1;
    }
    assert(candidates@.take(candidates@.len() as int) =~= candidates@);
    out
}

/// The most elements that are looked at.
pub const MAX_TREE_NODES: usize = 4_096;

/// How deep elements are looked for.
pub const MAX_TREE_DEPTH: usize = 64;

/// The search through the elements of an application, breadth first.  Elements
/// are known by numbers that the surrounding program gives them.
#[derive(Debug)]
pub struct EditableSearch {
    pub queue: Vec<(u64, usize)>,
    pub visited: Vec<u64>,
}

/// Whether an element is passed over: enough were looked at, or it was.
pub open spec fn passed_over(visited: Seq<u64>, node: u64) -> bool {
    visited.len() >= MAX_TREE_NODES || visited.contains(node)
}

/// What is left of the queue once the elements that are passed over are gone.
pub open spec fn unseen(queue: Seq<(u64, usize)>, visited: Seq<u64>) -> Seq<(u64, usize)>
    decreases queue.len(),
{
    if queue.len() > 0 && passed_over(visited, queue[0].0) {
        unseen(queue.skip(1), visited)
    } else {
        queue
    }
}

impl EditableSearch {
    /// What always holds: no element is looked at twice, no more than the limit
    /// are, and none lies deeper than the limit.
    pub open spec fn valid(self) -> bool {
        &&& self.visited@.no_duplicates()
        &&& self.visited@.len() <= MAX_TREE_NODES
        &&& forall|i: int|
            0 <= i < self.queue@.len() ==> (#[trigger] self.queue@[i]).1 <= MAX_TREE_DEPTH
    }

    /// A search that begins at the windows of Codex.
    pub fn new(roots: &Vec<u64>) -> (r: EditableSearch)
        ensures
            r.queue@ == Seq::new(roots@.len(), |i: int| (roots@[i], 0usize)),
            r.visited@.len() == 0,
            r.valid(),
    {
        let mut queue: Vec<(u64, usize)> = Vec::new();
        let mut i: usize = 0;
        while i < roots.len()
            invariant
                i <= roots@.len(),
                queue@.len() == i,
                forall|k: int| 0 <= k < i ==> queue@[k] == (roots@[k], 0usize),
            decreases roots.len() - i,
        {
            queue.push((roots[i], 0));
            i = i + 1;
        }
        assert(queue@ =~= Seq::new(roots@.len(), |i: int| (roots@[i], 0usize)));
        EditableSearch { queue, visited: Vec::new() }
    }

    fn is_passed_over(&self, node: u64) -> (r: bool)
        ensures
            r == passed_over(self.visited@, node),
    {
        if self.visited.len() >= MAX_TREE_NODES {
            return true;
        }
        let mut i: usize = 0;
        while i < self.visited.len()
            invariant
                i <= self.visited@.len(),
                self.visited@.len() < MAX_TREE_NODES,
                forall|k: int| 0 <= k < i ==> self.visited@[k] != node,
            decreases self.visited.len() - i,
        {
            if self.visited[i] == node {
                assert(self.visited@.contains(node));
                return true;
            }
            i = i + 1;
        }
        false
    }

    /// The next element to look at, with its depth.
    pub fn next(&mut self) -> (r: Option<(u64, usize)>)
        requires
            old(self).valid(),
        ensures
            ({
                let left = unseen(old(self).queue@, old(self).visited@);
                if left.len() == 0 {
                    &&& r is None
                    &&& final(self).queue@.len() == 0
                    &&& final(self).visited@ == old(self).visited@
                } else {
                    &&& r == Some(left[0])
                    &&& final(self).queue@ == left.skip(1)
                    &&& final(self).visited@ == old(self).visited@.push(left[0].0)
                    &&& !old(self).visited@.contains(left[0].0)
                    &&& left[0].1 <= MAX_TREE_DEPTH
                }
            }),
            final(self).valid(),
    {
        let ghost start = self.queue@;
        let ghost known = self.visited@;
        while self.queue.len() > 0
            invariant
                self.valid(),
                self.visited@ == known,
                known == old(self).visited@,
                start == old(self).queue@,
                unseen(self.queue@, known) == unseen(start, known),
            decreases self.queue.len(),
        {
            let ghost before = self.queue@;
            let entry = self.queue.remove(0);
            assert(self.queue@ =~= before.skip(1));
            assert(entry == before[0]);
            assert forall|i: int| 0 <= i < self.queue@.len() implies (#[trigger] self.queue@[i]).1
                <= MAX_TREE_DEPTH by {
                assert(self.queue@[i] == before[i + 1]);
            }
            if !self.is_passed_over(entry.0) {
                self.visited.push(entry.0);
                return Some(entry);
            }
        }
        None
    }

    /// The children of an element at a depth were found.
    pub fn found_children(&mut self, depth: usize, children: &Vec<u64>)
        requires
            old(self).valid(),
        ensures
            final(self).visited@ == old(self).visited@,
            final(self).queue@ == (if depth >= MAX_TREE_DEPTH {
                old(self).queue@
            } else {
                old(self).queue@ + Seq::new(
                    children@.len(),
                    |i: int| (children@[i], (depth + 1) as usize),
                )
            }),
            final(self).valid(),
    {
        if depth >= MAX_TREE_DEPTH {
            return;
        }
        let ghost before = self.queue@;
        let ghost added = Seq::new(children@.len(), |i: int| (children@[i], (depth + 1) as usize));
        let mut i: usize = 0;
        assert(before + added.take(0) =~= before);
        while i < children.len()
            invariant
                i <= children@.len(),
                depth < MAX_TREE_DEPTH,
                self.visited@ == old(self).visited@,
                added == Seq::new(
                    children@.len(),
                    |i: int| (children@[i], (depth + 1) as usize),
                ),
                self.queue@ == before + added.take(i as int),
                self.valid(),
            decreases children.len() - i,
        {
            self.queue.push((children[i], depth + 1));
            i = i + 1;
            assert(self.queue@ =~= before + added.take(i as int));
        }
        assert(added.take(i as int) =~= added);
    }
}

/// What an element of a window of Windows is.
#[derive(Clone, Copy, Debug, PartialEq, Eq, Structural)]
pub enum ElementKind {
    Edit,
    Document,
    Other,
}

/// What is known of an element of a window of Windows.
#[derive(Debug)]
pub struct WindowElement {
    pub enabled: bool,
    pub focusable: bool,
    pub offscreen: bool,
    pub kind: ElementKind,
    pub name: String,
    pub automation_id: String,
}

/// The words that are expected near the input of a window of Windows.
pub open spec fn window_hints() -> Seq<Seq<char>> {
    seq!["message"@, "prompt"@, "ask"@, "codex"@, "任务"@, "消息"@, "输入"@]
}

fn windows_hints() -> (r: Vec<&'static str>)
    ensures
        views(r@) == window_hints(),
{
    let mut hints: Vec<&'static str> = Vec::new();
    hints.push("message");
    hints.push("prompt");
    hints.push("ask");
    hints.push("codex");
    hints.push("任务");
    hints.push("消息");
    hints.push("输入");
    assert(views(hints@) =~= window_hints());
    hints
}

impl WindowElement {
    /// Whether the element is an input of a kind that can be typed into.
    pub open spec fn is_input(self, kind: ElementKind) -> bool {
        self.enabled && self.focusable && !self.offscreen && self.kind == kind
    }

    /// Whether the texts of the element speak for the input of Codex.
    pub open spec fn is_hinted(self) -> bool {
        self.is_input(ElementKind::Edit) && hinted(
            lowercase(self.name@ + " "@ + self.automation_id@),
            window_hints(),
        )
    }
}

/// Chooses the input of a window: the first edit field that is hinted at, else
/// the last edit field, else the last document.
pub fn find_codex_input(elements: &Vec<WindowElement>) -> (r: Option<usize>)
    ensures
        match r {
            Some(index) => {
                let element = elements@[index as int];
                &&& index < elements@.len()
                &&& element.is_hinted() && (forall|k: int|
                    0 <= k < index ==> !(#[trigger] elements@[k]).is_hinted()) || (forall|k: int|
                    0 <= k < elements@.len() ==> !(#[trigger] elements@[k]).is_hinted()) && (
                element.is_input(ElementKind::Edit) && (forall|k: int|
                    index < k < elements@.len() ==> !(#[trigger] elements@[k]).is_input(
                        ElementKind::Edit,
                    )) || element.is_input(ElementKind::Document) && (forall|k: int|
                    0 <= k < elements@.len() ==> !(#[trigger] elements@[k]).is_input(
                        ElementKind::Edit,
                    )) && (forall|k: int|
                    index < k < elements@.len() ==> !(#[trigger] elements@[k]).is_input(
                        ElementKind::Document,
                    )))
            },
            None => forall|k: int|
                0 <= k < elements@.len() ==> !(#[trigger] elements@[k]).is_input(ElementKind::Edit)
                    && !elements@[k].is_input(ElementKind::Document),
        },
{
    let mut edit: Option<usize> = None;
    let mut document: Option<usize> = None;
    let mut i: usize = 0;
    while i < elements.len()
        invariant
            i <= elements@.len(),
            forall|k: int| 0 <= k < i ==> !(#[trigger] elements@[k]).is_hinted(),
            match edit {
                Some(index) => index < i && elements@[index as int].is_input(ElementKind::Edit) && (
                forall|k: int|
                    index < k < i ==> !(#[trigger] elements@[k]).is_input(ElementKind::Edit)),
                None => forall|k: int|
                    0 <= k < i ==> !(#[trigger] elements@[k]).is_input(ElementKind::Edit),
            },
            match document {
                Some(index) => index < i && elements@[index as int].is_input(ElementKind::Document)
                    && (forall|k: int|
                    index < k < i ==> !(#[trigger] elements@[k]).is_input(ElementKind::Document)),
                None => forall|k: int|
                    0 <= k < i ==> !(#[trigger] elements@[k]).is_input(ElementKind::Document),
            },
        decreases elements.len() - i,
    {
        let element = &elements[i];
        if element.enabled && element.focusable && !element.offscreen {
            match element.kind {
                ElementKind::Edit => {
                    let identity = lower(
                        cat3(
                            element.name.as_str(),
                            " ",
                            element.automation_id.as_str(),
                        ).as_str(),
                    );
                    if contains_hint(identity.as_str(), &windows_hints()) {
                        return Some(i);
                    }
                    edit = Some(i);
                },
                ElementKind::Document => {
                    document = Some(i);
                },
                ElementKind::Other => {},
            }
        }
        i = i + 1;
    }
    if edit.is_some() {
        edit
    } else {
        document
    }
}

/// Whether Windows took all the keys that were sent.
pub fn check_sent_keys(sent: u32, expected: u32) -> (r: Result<(), AutomationError>)
    ensures
        r is Ok == (sent == expected),
        r matches Err(error) ==> error.text() == "GUI fallback failed: "@ + (
        "Windows accepted only "@ + decimal(sent as nat) + "/"@ + decimal(expected as nat)
            + " keyboard events"@),
{
    if sent == expected {
        return Ok(());
    }
    let mut text = cat3("Windows accepted only ", number_text(sent as u64).as_str(), "/");
    text.push_str(number_text(expected as u64).as_str());
    text.push_str(" keyboard events");
    Err(AutomationError::Failed(text))
}

/// What is known of an element of a macOS application.
#[derive(Debug)]
pub struct MacElement {
    pub role: String,
    pub enabled: bool,
    pub editable: bool,
    /// The placeholder, the description and the title.
    pub texts: Vec<String>,
}

/// The words that are expected near the input of a macOS application.
pub open spec fn mac_hints() -> Seq<Seq<char>> {
    seq!["message"@, "prompt"@, "ask"@, "codex"@, "任务"@, "消息"@]
}

/// Whether one of the texts of an element speaks for the input of Codex.
pub open spec fn mac_hinted(texts: Seq<Seq<char>>) -> bool {
    exists|i: int| 0 <= i < texts.len() && hinted(lowercase(#[trigger] texts[i]), mac_hints())
}

fn macos_hints() -> (r: Vec<&'static str>)
    ensures
        views(r@) == mac_hints(),
{
    let mut hints: Vec<&'static str> = Vec::new();
    hints.push("message");
    hints.push("prompt");
    hints.push("ask");
    hints.push("codex");
    hints.push("任务");
    hints.push("消息");
    assert(views(hints@) =~= mac_hints());
    hints
}

/// Whether one of the texts of an element speaks for the input of Codex.
pub fn has_composer_hint(texts: &Vec<String>) -> (r: bool)
    ensures
        r == mac_hinted(views(texts@)),
{
    let hints = macos_hints();
    let ghost all = views(texts@);
    let mut i: usize = 0;
    while i < texts.len()
        invariant
            i <= texts@.len(),
            all == views(texts@),
            views(hints@) == mac_hints(),
            forall|k: int| 0 <= k < i ==> !hinted(lowercase(#[trigger] all[k]), mac_hints()),
        decreases texts.len() - i,
    {
        assert(all[i as int] == texts@[i as int]@);
        if contains_hint(lower(texts[i].as_str()).as_str(), &hints) {
            return true;
        }
        i = i + 1;
    }
    false
}

/// Whether an element is the input of Codex.  The search that comes first asks
/// for a hint and takes either kind of field; the second takes any text area.
pub fn is_mac_input(element: &MacElement, needs_hint: bool) -> (r: bool)
    ensures
        r == {
            &&& element.enabled
            &&& element.editable
            &&& if needs_hint {
                (element.role@ == "AXTextArea"@ || element.role@ == "AXTextField"@) && mac_hinted(
                    views(element.texts@),
                )
            } else {
                element.role@ == "AXTextArea"@
            }
        },
{
    let area = same(element.role.as_str(), "AXTextArea");
    let text_field = same(element.role.as_str(), "AXTextField");
    if needs_hint {
        (area || text_field) && element.enabled && element.editable && has_composer_hint(
            &element.texts,
        )
    } else {
        area && element.enabled && element.editable
    }
}

/// What is done to give the clipboard back.
#[derive(Debug)]
pub enum ClipboardStep {
    Nothing,
    Clear,
    SetText(String),
}

/// The clipboard before the prompt was put into it.
#[derive(Debug)]
pub struct ClipboardRestore {
    pub previous_text: Option<String>,
    pub restored: bool,
}

impl ClipboardRestore {
    /// What the clipboard held.
    pub fn install(previous_text: Option<String>) -> (r: ClipboardRestore)
        ensures
            opt(r.previous_text) == opt(previous_text),
            !r.restored,
    {
        ClipboardRestore { previous_text, restored: false }
    }

    /// Gives back what the clipboard held, once.
    pub fn restore(&mut self) -> (r: ClipboardStep)
        ensures
            final(self).restored,
            match r {
                ClipboardStep::Nothing => old(self).restored,
                ClipboardStep::Clear => !old(self).restored && old(self).previous_text is None,
                ClipboardStep::SetText(text) => !old(self).restored && opt(
                    old(self).previous_text,
                ) == Some(text@),
            },
    {
        if self.restored {
            return ClipboardStep::Nothing;
        }
        self.restored = true;
        match self.previous_text.take() {
            Some(text) => ClipboardStep::SetText(text),
            None => ClipboardStep::Clear,
        }
    }
}

} // verus!
