//! The evolving playbook: the behavioural contract a twin runs under, and
//! the refinement artifact reflection emits after a task.

use vstd::prelude::*;

use crate::discover::vec_contains_str;
use crate::tool::ToolSchema;
use crate::types::TwinId;
use vstd::string::StringSliceAdditionalSpecFns;

verus! {

/// Metadata and provenance of a playbook.
#[derive(Debug, Clone)]
pub struct PlaybookMeta {
    /// Playbook schema version, bumped on breaking schema changes.
    pub schema_version: u32,
    /// Content address of the hive revision this playbook came from.
    pub hive_version: Option<String>,
    /// ISO timestamp text of the last update.
    pub last_updated: Option<String>,
    /// Verifiable contributor identifier.
    pub contributor_did: Option<String>,
}

impl Default for PlaybookMeta {
    fn default() -> (r: Self)
        ensures
            r.schema_version == 0,
            r.hive_version is None,
            r.last_updated is None,
            r.contributor_did is None,
    {
        PlaybookMeta {
            schema_version: 0,
            hive_version: None,
            last_updated: None,
            contributor_did: None,
        }
    }
}

/// Ethical alignment policy.
#[derive(Debug, Clone)]
pub struct PlaybookEthics {
    pub constitution: Option<String>,
    pub harm_categories: Vec<String>,
    pub alignment_check: bool,
    pub refusal_response: Option<String>,
    pub min_reputation_for_override: Option<u32>,
    pub red_lines: Vec<String>,
}

/// Context-engineering configuration.
#[derive(Debug, Clone)]
pub struct PlaybookContextEngineering {
    pub max_context_tokens: Option<u32>,
    pub chunking_strategy: Option<String>,
    pub retrieval_top_k: Option<u32>,
    pub rerank_model: Option<String>,
    pub layers: PlaybookContextLayers,
    pub order: PlaybookContextOrder,
    pub filters: PlaybookContextFilters,
}

/// Named context layers.
#[derive(Debug, Clone)]
pub struct PlaybookContextLayers {
    pub system: String,
    pub reflection: String,
    pub tools: String,
    pub memory: String,
    pub goal: String,
}

/// Priority order of context layers.
#[derive(Debug, Clone)]
pub struct PlaybookContextOrder {
    pub priority: Vec<String>,
}

/// Context filter hooks.
#[derive(Debug, Clone)]
pub struct PlaybookContextFilters {
    pub pre_tool_use: Vec<String>,
    pub post_execution: Vec<String>,
}

/// Candidate-generation settings of the reflection cycle.
#[derive(Debug, Clone)]
pub struct AceGeneration {
    pub candidate_count: Option<u32>,
    pub strategy: String,
}

/// Curation settings of the reflection cycle.
#[derive(Debug, Clone)]
pub struct AceCuration {
    pub mode: String,
    pub max_playbook_bytes: Option<u32>,
}

/// High-level principles.
#[derive(Debug, Clone)]
pub struct PlaybookAiPrinciples {
    pub core_values: Vec<String>,
    pub alignment_checkpoints: Vec<String>,
}

/// Structured instruction set.
#[derive(Debug, Clone)]
pub struct PlaybookInstructions {
    pub system_prompt: String,
    pub reflection_rules: Vec<String>,
    pub meta_learning: String,
}

/// Instruction set: a legacy bare string, or the structured table.
#[derive(Debug, Clone)]
pub enum InstructionsField {
    Legacy(String),
    Structured(PlaybookInstructions),
}

impl Default for InstructionsField {
    fn default() -> (r: Self)
        ensures
            (r matches InstructionsField::Legacy(s) && s@ == Seq::<char>::empty()),
    {
        InstructionsField::Legacy(String::new())
    }
}

/// Tool-use table.
#[derive(Debug, Clone)]
pub struct PlaybookTools {
    pub items: Vec<PlaybookToolItem>,
}

/// One tool of the structured tool table.
#[derive(Debug, Clone)]
pub struct PlaybookToolItem {
    pub name: String,
    pub description: String,
    /// Inline logic snippet, where the playbook carries one.
    pub logic: Option<String>,
    /// Human-readable parameter typing, name to type text.
    pub parameters: Vec<(String, String)>,
    /// Gateway routing, where the tool is reachable over a backend.
    pub plugin_url: Option<String>,
    pub endpoint: Option<String>,
}

/// Tool-use logic: legacy registry entries, or the structured table.
#[derive(Debug, Clone)]
pub enum ToolsField {
    Legacy(Vec<ToolSchema>),
    Structured(PlaybookTools),
}

impl Default for ToolsField {
    fn default() -> (r: Self)
        ensures
            (r matches ToolsField::Legacy(v) && v@.len() == 0),
    {
        ToolsField::Legacy(Vec::new())
    }
}

/// Specialized sub-agents.
#[derive(Debug, Clone)]
pub struct PlaybookSubAgents {
    pub items: Vec<PlaybookSubAgent>,
}

#[derive(Debug, Clone)]
pub struct PlaybookSubAgent {
    pub name: String,
    pub playbook_ref: Option<String>,
    pub specialization: String,
    pub improvement_focus: String,
}

/// Hive-level optimization hooks.
#[derive(Debug, Clone)]
pub struct PlaybookOptimization {
    pub rlhf_data: Option<String>,
    pub meta_orchestration: String,
    pub model_version: Option<String>,
}

/// The evolving playbook.
#[derive(Debug, Clone)]
pub struct Playbook {
    pub meta: PlaybookMeta,
    /// Monotonic revision counter of the playbook itself.
    pub version: u32,
    pub ethics: Option<PlaybookEthics>,
    pub context_engineering: Option<PlaybookContextEngineering>,
    pub ai_principles: Option<PlaybookAiPrinciples>,
    pub instructions: InstructionsField,
    pub tools: ToolsField,
    pub sub_agents: Option<PlaybookSubAgents>,
    pub optimization: Option<PlaybookOptimization>,
}

/// The top-level instruction text an instruction set carries.
pub open spec fn prompt_of(f: InstructionsField) -> Seq<char> {
    match f {
        InstructionsField::Legacy(s) => s@,
        InstructionsField::Structured(i) => i.system_prompt@,
    }
}

impl Default for Playbook {
    fn default() -> (r: Self)
        ensures
            r.version == 0,
            (r.instructions matches InstructionsField::Legacy(s) && s@ == Seq::<char>::empty()),
            (r.tools matches ToolsField::Legacy(v) && v@.len() == 0),
            r.ethics is None,
            r.context_engineering is None,
            r.ai_principles is None,
            r.sub_agents is None,
            r.optimization is None,
    {
        Playbook {
            meta: PlaybookMeta::default(),
            version: 0,
            ethics: None,
            context_engineering: None,
            ai_principles: None,
            instructions: InstructionsField::default(),
            tools: ToolsField::default(),
            sub_agents: None,
            optimization: None,
        }
    }
}

impl Playbook {
    /// The best available system prompt: the legacy string, or the
    /// structured table's prompt.
    pub fn system_prompt(&self) -> (r: &str)
        ensures
            r@ == prompt_of(self.instructions),
    {
        match &self.instructions {
            InstructionsField::Legacy(s) => s.as_str(),
            InstructionsField::Structured(i) => i.system_prompt.as_str(),
        }
    }
}

/// Artifact emitted by reflection: a critique and the refined playbook.
#[derive(Debug, Clone)]
pub struct RefinementArtifact {
    pub twin_id: Option<TwinId>,
    pub critique: String,
    pub updated_playbook: Playbook,
}

// --- Decimal rendering ---
/// The character of one decimal digit.
pub open spec fn digit_char(d: nat) -> char {
    if d == 0 {
        '0'
    } else if d == 1 {
        '1'
    } else if d == 2 {
        '2'
    } else if d == 3 {
        '3'
    } else if d == 4 {
        '4'
    } else if d == 5 {
        '5'
    } else if d == 6 {
        '6'
    } else if d == 7 {
        '7'
    } else if d == 8 {
        '8'
    } else {
        '9'
    }
}

/// The decimal representation of a number, most significant digit first.
pub open spec fn dec_str_of(n: nat) -> Seq<char>
    decreases n,
{
    if n < 10 {
        seq![digit_char(n)]
    } else {
        dec_str_of(n / 10).push(digit_char(n % 10))
    }
}

fn digit_str(d: usize) -> (r: &'static str)
    requires
        d < 10,
    ensures
        r@ == seq![digit_char(d as nat)],
{
    proof {
        reveal_strlit("0");
        reveal_strlit("1");
        reveal_strlit("2");
        reveal_strlit("3");
        reveal_strlit("4");
        reveal_strlit("5");
        reveal_strlit("6");
        reveal_strlit("7");
        reveal_strlit("8");
        reveal_strlit("9");
    }
    let r = match d {
        0 => "0",
        1 => "1",
        2 => "2",
        3 => "3",
        4 => "4",
        5 => "5",
        6 => "6",
        7 => "7",
        8 => "8",
        _ => "9",
    };
    proof {
        assert(r@ =~= seq![digit_char(d as nat)]);
    }
    r
}

/// Render a number in decimal.
pub fn usize_to_string(n: usize) -> (r: String)
    ensures
        r@ == dec_str_of(n as nat),
    decreases n,
{
    if n < 10 {
        digit_str(n).to_owned()
    } else {
        let mut s = usize_to_string(n / 10);
        s.append(digit_str(n % 10));
        proof {
            assert((n / 10) as nat == n as nat / 10);
            assert((n % 10) as nat == n as nat % 10);
            assert(dec_str_of(n as nat / 10) + seq![digit_char(n as nat % 10)] =~= dec_str_of(
                n as nat / 10,
            ).push(digit_char(n as nat % 10)));
        }
        s
    }
}

// --- Refinement ---
/// The deterministic critique text of one reflection.
pub open spec fn critique_spec(goal: Seq<char>, outcome_len: nat) -> Seq<char> {
    "Reflection: Goal='"@ + goal + "' produced output_len="@ + dec_str_of(outcome_len)
        + " (improve tool usage + evaluation loop)."@
}

/// A character this crate counts as blank space.
pub open spec fn is_space(c: char) -> bool {
    c == ' ' || c == '\t' || c == '\n' || c == '\r'
}

/// Nothing but blank space.
pub open spec fn is_blank(s: Seq<char>) -> bool {
    forall|i: int| 0 <= i < s.len() ==> is_space(#[trigger] s[i])
}

/// Whether a string holds nothing but blank space.
pub fn str_is_blank(s: &str) -> (r: bool)
    ensures
        r == is_blank(s@),
{
    let n = s.unicode_len();
    let mut i: usize = 0;
    while i < n
        invariant
            n == s@.len(),
            i <= n,
            forall|k: int| 0 <= k < i ==> is_space(#[trigger] s@[k]),
        decreases n - i,
    {
        let c = s.get_char(i);
        if !(c == ' ' || c == '\t' || c == '\n' || c == '\r') {
            return false;
        }
        i = i + 1;
    }
    true
}

fn clone_string_vec(v: &Vec<String>) -> (r: Vec<String>)
    ensures
        r.deep_view() == v.deep_view(),
{
    let n = v.len();
    let mut out: Vec<String> = Vec::new();
    let mut i: usize = 0;
    proof {
        assert(out.deep_view() =~= v.deep_view().take(0int));
    }
    while i < n
        invariant
            n == v.deep_view().len(),
            i <= n,
            out.deep_view() == v.deep_view().take(i as int),
        decreases n - i,
    {
        let ghost pre = out.deep_view();
        out.push(v[i].clone());
        proof {
            assert(out.deep_view() =~= pre.push(v.deep_view()[i as int]));
            assert(pre.push(v.deep_view()[i as int]) =~= v.deep_view().take(i as int + 1));
        }
        i = i + 1;
    }
    proof {
        assert(v.deep_view().take(n as int) =~= v.deep_view());
    }
    out
}

/// The rule the reflection cycle curates into a structured instruction set.
pub open spec fn curated_rule() -> Seq<char> {
    "After every task: evaluate against metrics + ethics, identify root cause, and propose a concrete playbook refinement."@
}

/// The prompt seeded into a playbook that had none.
pub open spec fn seeded_prompt() -> Seq<char> {
    "You are a self-improving PAGI agent. Prioritize safety, accuracy, and efficiency. Reflect on every task: what succeeded, what failed, and propose refinements."@
}

/// Reflect on one finished task: a deterministic critique, and the playbook
/// bumped one revision. A playbook with a blank prompt is seeded with a
/// structured instruction set; a structured one is curated by appending one
/// reflection rule, once; a legacy one is kept as it is.
pub fn generate_refinement_artifact(
    twin_id: TwinId,
    goal: &str,
    outcome: &str,
    base: &Playbook,
) -> (r: RefinementArtifact)
    ensures
        r.twin_id == Some(twin_id),
        r.critique@ == critique_spec(goal@, (outcome.spec_bytes().len() as usize) as nat),
        r.updated_playbook.version == if base.version == u32::MAX {
            u32::MAX
        } else {
            (base.version + 1) as u32
        },
        is_blank(prompt_of(base.instructions)) ==> (r.updated_playbook.instructions matches
            InstructionsField::Structured(i) && i.system_prompt@ == seeded_prompt()
            && i.reflection_rules.deep_view() == seq![
            "Analyze outcomes using success metrics."@,
            "Generalize edge cases to cross-domain improvements."@,
            "Emit a refinement artifact when improvement is meaningful."@,
        ]
            && i.meta_learning@
            == "Dynamically select sub-agents based on task type; optimize for minimal steps."@),
        !is_blank(prompt_of(base.instructions)) ==> match base.instructions {
            InstructionsField::Legacy(s) => (r.updated_playbook.instructions matches
            InstructionsField::Legacy(s2) && s2@ == s@),
            InstructionsField::Structured(i) => (r.updated_playbook.instructions matches
            InstructionsField::Structured(i2) && i2.system_prompt@ == i.system_prompt@
                && i2.meta_learning@ == i.meta_learning@ && i2.reflection_rules.deep_view() == (
            if i.reflection_rules.deep_view().contains(curated_rule()) {
                i.reflection_rules.deep_view()
            } else {
                i.reflection_rules.deep_view().push(curated_rule())
            })),
        },
{
    let mut critique = "Reflection: Goal='".to_owned();
    critique.append(goal);
    critique.append("' produced output_len=");
    let len_text = usize_to_string(outcome.len());
    critique.append(len_text.as_str());
    critique.append(" (improve tool usage + evaluation loop).");

    let version = if base.version == u32::MAX {
        u32::MAX
    } else {
        base.version + 1
    };

    let instructions = if str_is_blank(base.system_prompt()) {
        let mut rules: Vec<String> = Vec::new();
        rules.push("Analyze outcomes using success metrics.".to_owned());
        rules.push("Generalize edge cases to cross-domain improvements.".to_owned());
        rules.push("Emit a refinement artifact when improvement is meaningful.".to_owned());
        proof {
            assert(rules.deep_view() =~= seq![
                "Analyze outcomes using success metrics."@,
                "Generalize edge cases to cross-domain improvements."@,
                "Emit a refinement artifact when improvement is meaningful."@,
            ]);
        }
        InstructionsField::Structured(
            PlaybookInstructions {
                system_prompt:
                    "You are a self-improving PAGI agent. Prioritize safety, accuracy, and efficiency. Reflect on every task: what succeeded, what failed, and propose refinements.".to_owned(),
                reflection_rules: rules,
                meta_learning:
                    "Dynamically select sub-agents based on task type; optimize for minimal steps.".to_owned(),
            },
        )
    } else {
        match &base.instructions {
            InstructionsField::Legacy(s) => InstructionsField::Legacy(s.clone()),
            InstructionsField::Structured(i) => {
                let mut rules = clone_string_vec(&i.reflection_rules);
                let curated =
                    "After every task: evaluate against metrics + ethics, identify root cause, and propose a concrete playbook refinement.".to_owned();
                if !vec_contains_str(&rules, &curated) {
                    let ghost pre = rules.deep_view();
                    rules.push(curated);
                    proof {
                        assert(rules.deep_view() =~= pre.push(curated_rule()));
                    }
                }
                InstructionsField::Structured(
                    PlaybookInstructions {
                        system_prompt: i.system_prompt.clone(),
                        reflection_rules: rules,
                        meta_learning: i.meta_learning.clone(),
                    },
                )
            },
        }
    };

    RefinementArtifact {
        twin_id: Some(twin_id),
        critique,
        updated_playbook: Playbook {
            meta: base.meta.clone(),
            version,
            ethics: base.ethics.clone(),
            context_engineering: base.context_engineering.clone(),
            ai_principles: base.ai_principles.clone(),
            instructions,
            tools: base.tools.clone(),
            sub_agents: base.sub_agents.clone(),
            optimization: base.optimization.clone(),
        },
    }
}

} // verus!
