//! The vocabulary of the unified graph: its types of nodes and edges.
use vstd::prelude::*;

use crate::statement::str_texts;
use crate::text::text_eq;

verus! {

/// A type of node.
#[derive(Debug, Clone, Copy)]
pub struct NodeTypeMeta {
    /// The name of the type, and the first part of its node ids.
    pub key: &'static str,
    /// The name for readers.
    pub display: &'static str,
    /// A table that its nodes come from.
    pub source_table: &'static str,
    /// Whether its nodes have an embedding, so that a search by similarity
    /// finds them.
    pub has_embedding: bool,
}

/// A type of edge with a fixed name.
#[derive(Debug, Clone, Copy)]
pub struct EdgeTypeMeta {
    /// The name of the type.
    pub key: &'static str,
    /// The name for readers.
    pub display: &'static str,
    /// Whether the edge has a direction by its meaning.
    pub directed: bool,
}

/// A type of node as a mathematical value.
pub struct NodeTypeView {
    pub key: Seq<char>,
    pub display: Seq<char>,
    pub source_table: Seq<char>,
    pub has_embedding: bool,
}

/// A type of edge as a mathematical value.
pub struct EdgeTypeView {
    pub key: Seq<char>,
    pub display: Seq<char>,
    pub directed: bool,
}

impl View for NodeTypeMeta {
    type V = NodeTypeView;

    open spec fn view(&self) -> NodeTypeView {
        NodeTypeView {
            key: self.key@,
            display: self.display@,
            source_table: self.source_table@,
            has_embedding: self.has_embedding,
        }
    }
}

/// Every field of the model stands for the field of the same name.
pub proof fn law_node_type_meta_is_modelled_by_its_fields(meta: NodeTypeMeta)
    ensures
        meta@.key == meta.key@,
        meta@.display == meta.display@,
        meta@.source_table == meta.source_table@,
        meta@.has_embedding == meta.has_embedding,
{
}

impl View for EdgeTypeMeta {
    type V = EdgeTypeView;

    open spec fn view(&self) -> EdgeTypeView {
        EdgeTypeView { key: self.key@, display: self.display@, directed: self.directed }
    }
}

/// Every field of the model stands for the field of the same name.
pub proof fn law_edge_type_meta_is_modelled_by_its_fields(meta: EdgeTypeMeta)
    ensures
        meta@.key == meta.key@,
        meta@.display == meta.display@,
        meta@.directed == meta.directed,
{
}

/// The types of nodes of a list.
pub open spec fn node_views(v: Seq<NodeTypeMeta>) -> Seq<NodeTypeView> {
    v.map_values(|n: NodeTypeMeta| n@)
}

/// The types of edges of a list.
pub open spec fn edge_type_views(v: Seq<EdgeTypeMeta>) -> Seq<EdgeTypeView> {
    v.map_values(|e: EdgeTypeMeta| e@)
}

/// A type of node.
pub open spec fn node(
    key: Seq<char>,
    display: Seq<char>,
    source_table: Seq<char>,
    has_embedding: bool,
) -> NodeTypeView {
    NodeTypeView { key, display, source_table, has_embedding }
}

/// A type of edge.
pub open spec fn edge(key: Seq<char>, display: Seq<char>, directed: bool) -> EdgeTypeView {
    EdgeTypeView { key, display, directed }
}

/// All types of nodes.
pub open spec fn node_registry() -> Seq<NodeTypeView> {
    seq![
        node("memory_entity"@, "Memory Entity"@, "memory_entities"@, true),
        node("observation"@, "Observation"@, "memory_observations"@, true),
        node("chunk"@, "Code Chunk"@, "file_chunks"@, true),
        node("topic"@, "Topic"@, "code_topics"@, true),
        node("durable_mandate"@, "Durable Mandate"@, "durable_mandates"@, true),
        node("session_mandate"@, "Session Mandate"@, "session_mandates"@, true),
        node("commit"@, "Git Commit"@, "git_commits"@, false),
        node("commit_chunk"@, "Commit Chunk"@, "git_commit_chunks"@, true),
        node("pattern_chunk"@, "Pattern Chunk"@, "software_pattern_chunks"@, true),
        node("file"@, "File"@, "indexed_files"@, false),
        node("project"@, "Project"@, "projects"@, false),
        node("symbol"@, "Symbol"@, "file_symbols"@, false),
        node("work_item"@, "Work Item"@, "work_items"@, true),
        node("experiment"@, "Experiment"@, "experiments"@, true),
        node("agent"@, "Agent"@, "agent_presence"@, false),
        node("protocol"@, "CSM Protocol"@, "csm_protocols"@, false),
        node("protocol_role"@, "CSM Protocol Role (G ↾ r)"@, "csm_projections"@, false),
        node("effect"@, "Effect (shadow-ASR)"@, "effect_catalog"@, false),
        node("type_tag"@, "Type Tag (shadow-ASR)"@, "type_tag_catalog"@, false),
        node("lock_resource"@, "Lock Resource (concurrency)"@, "sync_ops"@, false),
        node("channel"@, "Channel (concurrency)"@, "sync_ops"@, false),
        node("agent_message"@, "Agent Message (social mailbox)"@, "agent_messages"@, true),
        node("a2a_message"@, "A2A Message (task transcript)"@, "a2a_messages"@, true),
        node("a2a_task"@, "A2A Task (hub)"@, "a2a_tasks"@, false),
        node("prompt"@, "Session Prompt"@, "session_prompts"@, true),
        node("data_table"@, "Data Table (JSON)"@, "data_tables"@, true),
        node(
            "coordination_request"@,
            "Coordination Request (worktree negotiation)"@,
            "coordination_requests"@,
            true,
        ),
    ]
}

/// All types of edges with a fixed name.
pub open spec fn edge_registry() -> Seq<EdgeTypeView> {
    seq![
        edge("belongs_to"@, "Belongs To (chunk→topic)"@, true),
        edge("project_depends_on"@, "Depends On (project→project)"@, true),
        edge("projects_to"@, "Projects To (protocol→role)"@, true),
        edge("in_file"@, "In File (chunk→file)"@, true),
        edge("in_project"@, "In Project"@, true),
        edge("defined_in"@, "Defined In (symbol→file)"@, true),
        edge("parent_of"@, "Parent Of (tree)"@, true),
        edge("similar_to"@, "Similar To (cross-project)"@, false),
        edge("in_commit"@, "In Commit (commit_chunk→commit)"@, true),
        edge("touches"@, "Touches (commit→file)"@, true),
        edge("validated_by"@, "Validated By (work_item→experiment)"@, true),
        edge("evidenced_by"@, "Evidenced By (→observation)"@, true),
        edge("supersedes"@, "Supersedes (experiment)"@, true),
        edge("claimed_by"@, "Claimed By (work_item→agent)"@, true),
        edge("working_on"@, "Working On (agent→work_item)"@, true),
        edge("handoff"@, "Handoff (agent→agent)"@, true),
        edge("evolves_like"@, "Evolves Like (MSM trajectory)"@, false),
        edge("workflow_like"@, "Workflow Like (event-sequence)"@, false),
        edge("calls"@, "Calls (symbol→symbol, resolved)"@, true),
        edge("has_effect"@, "Has Effect (symbol→effect)"@, true),
        edge("has_type"@, "Has Type (symbol→type_tag)"@, true),
        edge("acquires"@, "Acquires (symbol→lock_resource)"@, true),
        edge("sends_on"@, "Sends On (symbol→channel)"@, true),
        edge("lock_order"@, "Lock Order (lock_resource→lock_resource, bitemporal)"@, true),
        edge("in_task"@, "In Task (a2a_message→a2a_task)"@, true),
        edge("reply_to"@, "Reply To (agent_message→agent_message)"@, true),
        edge("extracted_from"@, "Extracted From (mandate→prompt)"@, true),
        edge("sent"@, "Sent (agent→agent_message)"@, true),
        edge("concerns"@, "Concerns (coordination_request→work_item / agent_message)"@, true),
        edge("requested"@, "Requested (agent→coordination_request)"@, true),
    ]
}

/// The columns whose values are types of edges too, without a fixed list.
pub open spec fn freeform_registry() -> Seq<Seq<char>> {
    seq![
        "memory_relations.relation_type"@,
        "item_relations.relation_type"@,
        "experiment_relations.relation_type"@,
        "code_graph_edges.edge_type"@,
        "memory_code_anchor.anchor_type"@,
        "work_item_code_anchor.anchor_type"@,
        "experiment_code_anchor.anchor_type"@,
        "work_item_claims.action"@,
    ]
}

fn node_meta(
    key: &'static str,
    display: &'static str,
    source_table: &'static str,
    has_embedding: bool,
) -> (r: NodeTypeMeta)
    ensures
        r@ == node(key@, display@, source_table@, has_embedding),
{
    NodeTypeMeta { key, display, source_table, has_embedding }
}

fn edge_meta(key: &'static str, display: &'static str, directed: bool) -> (r: EdgeTypeMeta)
    ensures
        r@ == edge(key@, display@, directed),
{
    EdgeTypeMeta { key, display, directed }
}

/// All types of nodes.
pub fn node_types() -> (r: Vec<NodeTypeMeta>)
    ensures
        node_views(r@) == node_registry(),
{
    let r: Vec<NodeTypeMeta> = vec![
        node_meta("memory_entity", "Memory Entity", "memory_entities", true),
        node_meta("observation", "Observation", "memory_observations", true),
        node_meta("chunk", "Code Chunk", "file_chunks", true),
        node_meta("topic", "Topic", "code_topics", true),
        node_meta("durable_mandate", "Durable Mandate", "durable_mandates", true),
        node_meta("session_mandate", "Session Mandate", "session_mandates", true),
        node_meta("commit", "Git Commit", "git_commits", false),
        node_meta("commit_chunk", "Commit Chunk", "git_commit_chunks", true),
        node_meta("pattern_chunk", "Pattern Chunk", "software_pattern_chunks", true),
        node_meta("file", "File", "indexed_files", false),
        node_meta("project", "Project", "projects", false),
        node_meta("symbol", "Symbol", "file_symbols", false),
        node_meta("work_item", "Work Item", "work_items", true),
        node_meta("experiment", "Experiment", "experiments", true),
        node_meta("agent", "Agent", "agent_presence", false),
        node_meta("protocol", "CSM Protocol", "csm_protocols", false),
        node_meta("protocol_role", "CSM Protocol Role (G ↾ r)", "csm_projections", false),
        node_meta("effect", "Effect (shadow-ASR)", "effect_catalog", false),
        node_meta("type_tag", "Type Tag (shadow-ASR)", "type_tag_catalog", false),
        node_meta("lock_resource", "Lock Resource (concurrency)", "sync_ops", false),
        node_meta("channel", "Channel (concurrency)", "sync_ops", false),
        node_meta("agent_message", "Agent Message (social mailbox)", "agent_messages", true),
        node_meta("a2a_message", "A2A Message (task transcript)", "a2a_messages", true),
        node_meta("a2a_task", "A2A Task (hub)", "a2a_tasks", false),
        node_meta("prompt", "Session Prompt", "session_prompts", true),
        node_meta("data_table", "Data Table (JSON)", "data_tables", true),
        node_meta(
            "coordination_request",
            "Coordination Request (worktree negotiation)",
            "coordination_requests",
            true,
        ),
    ];
    assert(node_views(r@) =~= node_registry());
    r
}

/// All types of edges with a fixed name.
pub fn edge_types_core() -> (r: Vec<EdgeTypeMeta>)
    ensures
        edge_type_views(r@) == edge_registry(),
{
    let r: Vec<EdgeTypeMeta> = vec![
        edge_meta("belongs_to", "Belongs To (chunk→topic)", true),
        edge_meta("project_depends_on", "Depends On (project→project)", true),
        edge_meta("projects_to", "Projects To (protocol→role)", true),
        edge_meta("in_file", "In File (chunk→file)", true),
        edge_meta("in_project", "In Project", true),
        edge_meta("defined_in", "Defined In (symbol→file)", true),
        edge_meta("parent_of", "Parent Of (tree)", true),
        edge_meta("similar_to", "Similar To (cross-project)", false),
        edge_meta("in_commit", "In Commit (commit_chunk→commit)", true),
        edge_meta("touches", "Touches (commit→file)", true),
        edge_meta("validated_by", "Validated By (work_item→experiment)", true),
        edge_meta("evidenced_by", "Evidenced By (→observation)", true),
        edge_meta("supersedes", "Supersedes (experiment)", true),
        edge_meta("claimed_by", "Claimed By (work_item→agent)", true),
        edge_meta("working_on", "Working On (agent→work_item)", true),
        edge_meta("handoff", "Handoff (agent→agent)", true),
        edge_meta("evolves_like", "Evolves Like (MSM trajectory)", false),
        edge_meta("workflow_like", "Workflow Like (event-sequence)", false),
        edge_meta("calls", "Calls (symbol→symbol, resolved)", true),
        edge_meta("has_effect", "Has Effect (symbol→effect)", true),
        edge_meta("has_type", "Has Type (symbol→type_tag)", true),
        edge_meta("acquires", "Acquires (symbol→lock_resource)", true),
        edge_meta("sends_on", "Sends On (symbol→channel)", true),
        edge_meta("lock_order", "Lock Order (lock_resource→lock_resource, bitemporal)", true),
        edge_meta("in_task", "In Task (a2a_message→a2a_task)", true),
        edge_meta("reply_to", "Reply To (agent_message→agent_message)", true),
        edge_meta("extracted_from", "Extracted From (mandate→prompt)", true),
        edge_meta("sent", "Sent (agent→agent_message)", true),
        edge_meta("concerns", "Concerns (coordination_request→work_item / agent_message)", true),
        edge_meta("requested", "Requested (agent→coordination_request)", true),
    ];
    assert(edge_type_views(r@) =~= edge_registry());
    r
}

/// The columns whose values are types of edges too, without a fixed list.
pub fn freeform_edge_sources() -> (r: Vec<&'static str>)
    ensures
        str_texts(r@) == freeform_registry(),
{
    let r: Vec<&'static str> = vec![
        "memory_relations.relation_type",
        "item_relations.relation_type",
        "experiment_relations.relation_type",
        "code_graph_edges.edge_type",
        "memory_code_anchor.anchor_type",
        "work_item_code_anchor.anchor_type",
        "experiment_code_anchor.anchor_type",
        "work_item_claims.action",
    ];
    assert(str_texts(r@) =~= freeform_registry());
    r
}

/// Whether a text names a type of node.
pub fn is_registered_node_type(s: &str) -> (r: bool)
    ensures
        r == exists|i: int|
            0 <= i < node_registry().len() && (#[trigger] node_registry()[i]).key == s@,
{
    node_type(s).is_some()
}

/// Whether a text names a type of edge with a fixed name.
pub fn is_core_edge_type(s: &str) -> (r: bool)
    ensures
        r == exists|i: int|
            0 <= i < edge_registry().len() && (#[trigger] edge_registry()[i]).key == s@,
{
    let all = edge_types_core();
    let mut i: usize = 0;
    while i < all.len()
        invariant
            i <= all.len(),
            edge_type_views(all@) == edge_registry(),
            forall|j: int| 0 <= j < i ==> (#[trigger] edge_registry()[j]).key != s@,
        decreases all.len() - i,
    {
        assert(edge_type_views(all@)[i as int] == all@[i as int]@);
        if text_eq(all[i].key, s) {
            assert(edge_registry()[i as int].key == s@);
            return true;
        }
        i = i + 1;
    }
    assert(edge_type_views(all@).len() == all.len());
    false
}

/// The type of node with a name.
pub fn node_type(key: &str) -> (r: Option<NodeTypeMeta>)
    ensures
        r is Some <==> exists|i: int|
            0 <= i < node_registry().len() && (#[trigger] node_registry()[i]).key == key@,
        r matches Some(n) ==> n@.key == key@ && node_registry().contains(n@),
{
    let all = node_types();
    let mut i: usize = 0;
    while i < all.len()
        invariant
            i <= all.len(),
            node_views(all@) == node_registry(),
            forall|j: int| 0 <= j < i ==> (#[trigger] node_registry()[j]).key != key@,
        decreases all.len() - i,
    {
        assert(node_views(all@)[i as int] == all@[i as int]@);
        if text_eq(all[i].key, key) {
            assert(node_registry()[i as int] == all@[i as int]@);
            return Some(all[i]);
        }
        i = i + 1;
    }
    assert(node_views(all@).len() == all.len());
    None
}

/// A number that tells the names of the vocabulary apart.
spec fn fingerprint(s: Seq<char>) -> int {
    s.len() * 1_000_000_000 + (s[0] as int) * 1_000_000 + (s[s.len() - 1] as int) * 1_000 + (
    s[1] as int)
}

/// No two types of nodes have the same name.
pub proof fn law_node_keys_are_unique(i: int, j: int)
    requires
        0 <= i < node_registry().len(),
        0 <= j < node_registry().len(),
        node_registry()[i].key == node_registry()[j].key,
    ensures
        i == j,
{
    reveal_strlit("memory_entity");
    reveal_strlit("observation");
    reveal_strlit("chunk");
    reveal_strlit("topic");
    reveal_strlit("durable_mandate");
    reveal_strlit("session_mandate");
    reveal_strlit("commit");
    reveal_strlit("commit_chunk");
    reveal_strlit("pattern_chunk");
    reveal_strlit("file");
    reveal_strlit("project");
    reveal_strlit("symbol");
    reveal_strlit("work_item");
    reveal_strlit("experiment");
    reveal_strlit("agent");
    reveal_strlit("protocol");
    reveal_strlit("protocol_role");
    reveal_strlit("effect");
    reveal_strlit("type_tag");
    reveal_strlit("lock_resource");
    reveal_strlit("channel");
    reveal_strlit("agent_message");
    reveal_strlit("a2a_message");
    reveal_strlit("a2a_task");
    reveal_strlit("prompt");
    reveal_strlit("data_table");
    reveal_strlit("coordination_request");
    assert(fingerprint(node_registry()[0].key) == 13109121101);
    assert(fingerprint(node_registry()[1].key) == 11111110098);
    assert(fingerprint(node_registry()[2].key) == 5099107104);
    assert(fingerprint(node_registry()[3].key) == 5116099111);
    assert(fingerprint(node_registry()[4].key) == 15100101117);
    assert(fingerprint(node_registry()[5].key) == 15115101101);
    assert(fingerprint(node_registry()[6].key) == 6099116111);
    assert(fingerprint(node_registry()[7].key) == 12099107111);
    assert(fingerprint(node_registry()[8].key) == 13112107097);
    assert(fingerprint(node_registry()[9].key) == 4102101105);
    assert(fingerprint(node_registry()[10].key) == 7112116114);
    assert(fingerprint(node_registry()[11].key) == 6115108121);
    assert(fingerprint(node_registry()[12].key) == 9119109111);
    assert(fingerprint(node_registry()[13].key) == 10101116120);
    assert(fingerprint(node_registry()[14].key) == 5097116103);
    assert(fingerprint(node_registry()[15].key) == 8112108114);
    assert(fingerprint(node_registry()[16].key) == 13112101114);
    assert(fingerprint(node_registry()[17].key) == 6101116102);
    assert(fingerprint(node_registry()[18].key) == 8116103121);
    assert(fingerprint(node_registry()[19].key) == 13108101111);
    assert(fingerprint(node_registry()[20].key) == 7099108104);
    assert(fingerprint(node_registry()[21].key) == 13097101103);
    assert(fingerprint(node_registry()[22].key) == 11097101050);
    assert(fingerprint(node_registry()[23].key) == 8097107050);
    assert(fingerprint(node_registry()[24].key) == 6112116114);
    assert(fingerprint(node_registry()[25].key) == 10100101097);
    assert(fingerprint(node_registry()[26].key) == 20099116111);
}

/// No two types of edges with a fixed name have the same name.
pub proof fn law_edge_keys_are_unique(i: int, j: int)
    requires
        0 <= i < edge_registry().len(),
        0 <= j < edge_registry().len(),
        edge_registry()[i].key == edge_registry()[j].key,
    ensures
        i == j,
{
    reveal_strlit("belongs_to");
    reveal_strlit("project_depends_on");
    reveal_strlit("projects_to");
    reveal_strlit("in_file");
    reveal_strlit("in_project");
    reveal_strlit("defined_in");
    reveal_strlit("parent_of");
    reveal_strlit("similar_to");
    reveal_strlit("in_commit");
    reveal_strlit("touches");
    reveal_strlit("validated_by");
    reveal_strlit("evidenced_by");
    reveal_strlit("supersedes");
    reveal_strlit("claimed_by");
    reveal_strlit("working_on");
    reveal_strlit("handoff");
    reveal_strlit("evolves_like");
    reveal_strlit("workflow_like");
    reveal_strlit("calls");
    reveal_strlit("has_effect");
    reveal_strlit("has_type");
    reveal_strlit("acquires");
    reveal_strlit("sends_on");
    reveal_strlit("lock_order");
    reveal_strlit("in_task");
    reveal_strlit("reply_to");
    reveal_strlit("extracted_from");
    reveal_strlit("sent");
    reveal_strlit("concerns");
    reveal_strlit("requested");
    assert(fingerprint(edge_registry()[0].key) == 10098111101);
    assert(fingerprint(edge_registry()[1].key) == 18112110114);
    assert(fingerprint(edge_registry()[2].key) == 11112111114);
    assert(fingerprint(edge_registry()[3].key) == 7105101110);
    assert(fingerprint(edge_registry()[4].key) == 10105116110);
    assert(fingerprint(edge_registry()[5].key) == 10100110101);
    assert(fingerprint(edge_registry()[6].key) == 9112102097);
    assert(fingerprint(edge_registry()[7].key) == 10115111105);
    assert(fingerprint(edge_registry()[8].key) == 9105116110);
    assert(fingerprint(edge_registry()[9].key) == 7116115111);
    assert(fingerprint(edge_registry()[10].key) == 12118121097);
    assert(fingerprint(edge_registry()[11].key) == 12101121118);
    assert(fingerprint(edge_registry()[12].key) == 10115115117);
    assert(fingerprint(edge_registry()[13].key) == 10099121108);
    assert(fingerprint(edge_registry()[14].key) == 10119110111);
    assert(fingerprint(edge_registry()[15].key) == 7104102097);
    assert(fingerprint(edge_registry()[16].key) == 12101101118);
    assert(fingerprint(edge_registry()[17].key) == 13119101111);
    assert(fingerprint(edge_registry()[18].key) == 5099115097);
    assert(fingerprint(edge_registry()[19].key) == 10104116097);
    assert(fingerprint(edge_registry()[20].key) == 8104101097);
    assert(fingerprint(edge_registry()[21].key) == 8097115099);
    assert(fingerprint(edge_registry()[22].key) == 8115110101);
    assert(fingerprint(edge_registry()[23].key) == 10108114111);
    assert(fingerprint(edge_registry()[24].key) == 7105107110);
    assert(fingerprint(edge_registry()[25].key) == 8114111101);
    assert(fingerprint(edge_registry()[26].key) == 14101109120);
    assert(fingerprint(edge_registry()[27].key) == 4115116101);
    assert(fingerprint(edge_registry()[28].key) == 8099115111);
    assert(fingerprint(edge_registry()[29].key) == 9114100101);
}

} // verus!
