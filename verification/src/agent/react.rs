//! The ReAct loop core: the action-protocol parser that turns a model reply
//! into a typed envelope, the tool registry, and the bounded-iteration loop
//! controller. The completion call and the tool capabilities are performed by
//! the caller, which drives the controller with their results as plain
//! values.
use vstd::prelude::*;

use crate::agent::json::string_eq;
use crate::error::{AgentError, AgentErrorModel};

verus! {

/// The two protocol states a model reply may declare: `PAUSE` requests a
/// tool round trip, `ANSWER` terminates the loop.
#[derive(Debug, Clone, Copy, PartialEq, Eq, Structural)]
pub enum ReactState {
    PAUSE,
    ANSWER,
}

/// Ghost shape of an [`Action`].
pub struct ActionModel {
    pub tool: Seq<char>,
    pub input: Seq<char>,
}

/// The tool invocation requested by an envelope: a tool name (`"none"` is
/// the reserved no-op sentinel) and the JSON text of the tool's input.
#[derive(Debug)]
pub struct Action {
    pub tool: String,
    pub input: String,
}

impl View for Action {
    type V = ActionModel;

    open spec fn view(&self) -> ActionModel {
        ActionModel { tool: self.tool@, input: self.input@ }
    }
}

/// Ghost shape of an [`ActionCall`].
pub struct ActionCallModel {
    pub state: ReactState,
    pub thought: Seq<char>,
    pub action: ActionModel,
}

/// A typed action envelope: one parsed model reply.
#[derive(Debug)]
pub struct ActionCall {
    pub state: ReactState,
    pub thought: String,
    pub action: Action,
}

impl View for ActionCall {
    type V = ActionCallModel;

    open spec fn view(&self) -> ActionCallModel {
        ActionCallModel { state: self.state, thought: self.thought@, action: self.action@ }
    }
}

/// The ghost shape of an optional envelope.
pub open spec fn envelope_model(r: Option<ActionCall>) -> Option<ActionCallModel> {
    match r {
        Some(ac) => Some(ac@),
        None => None,
    }
}

/// What the envelope decoder reads out of one model reply: the `state`,
/// `thought` and `action.tool` string entries, and the JSON text of the
/// `action.input` entry, when the reply is a JSON document of that shape.
pub uninterp spec fn envelope_fields_of(raw: Seq<char>) -> Option<
    (Seq<char>, Seq<char>, Seq<char>, Seq<char>),
>;

/// Relies on `serde_json::from_str`, `Value::get`, `Value::as_str` and the
/// `Display` form of `Value`: decodes one model reply into its envelope
/// fields (state, thought, tool, and the input's JSON text). The result
/// depends on the reply text alone.
#[verifier::external_body]
fn decode_envelope(raw: &str) -> (r: Option<(String, String, String, String)>)
    ensures
        match r {
            Some(fields) => envelope_fields_of(raw@) == Some(
                (fields.0@, fields.1@, fields.2@, fields.3@),
            ),
            None => envelope_fields_of(raw@) is None,
        },
{
    let doc: serde_json::Value = serde_json::from_str(raw).ok()?;
    let state = doc.get("state")?.as_str()?.to_owned();
    let thought = doc.get("thought")?.as_str()?.to_owned();
    let action = doc.get("action")?;
    let tool = action.get("tool")?.as_str()?.to_owned();
    let input = action.get("input")?.to_string();
    Some((state, thought, tool, input))
}

/// The envelope made of the decoded fields: `state` must be exactly
/// `"pause"` or `"answer"`; any other value fails the parse.
pub open spec fn interpreted_envelope(
    state: Seq<char>,
    thought: Seq<char>,
    tool: Seq<char>,
    input: Seq<char>,
) -> Option<ActionCallModel> {
    if state == "pause"@ {
        Some(
            ActionCallModel {
                state: ReactState::PAUSE,
                thought,
                action: ActionModel { tool, input },
            },
        )
    } else if state == "answer"@ {
        Some(
            ActionCallModel {
                state: ReactState::ANSWER,
                thought,
                action: ActionModel { tool, input },
            },
        )
    } else {
        None
    }
}

/// The envelope parsed out of one raw model reply, if any: strict decoding,
/// no partial recovery.
pub open spec fn parsed_action_call(raw: Seq<char>) -> Option<ActionCallModel> {
    match envelope_fields_of(raw) {
        Some(fields) => interpreted_envelope(fields.0, fields.1, fields.2, fields.3),
        None => None,
    }
}

/// Builds the typed envelope from already-decoded fields: `state` must be
/// exactly `"pause"` or `"answer"`, anything else is a parse failure.
pub fn interpret_envelope(state: String, thought: String, tool: String, input: String) -> (r:
    Option<ActionCall>)
    ensures
        envelope_model(r) == interpreted_envelope(state@, thought@, tool@, input@),
{
    let is_pause = string_eq(&state, "pause");
    let is_answer = string_eq(&state, "answer");
    if is_pause || is_answer {
        let protocol_state = if is_pause {
            ReactState::PAUSE
        } else {
            ReactState::ANSWER
        };
        Some(ActionCall { state: protocol_state, thought, action: Action { tool, input } })
    } else {
        None
    }
}

/// Parses one raw model reply into a typed envelope. Malformed input never
/// panics: it yields `None`.
pub fn parse_action_call(raw: &str) -> (r: Option<ActionCall>)
    ensures
        envelope_model(r) == parsed_action_call(raw@),
{
    match decode_envelope(raw) {
        Some(fields) => interpret_envelope(fields.0, fields.1, fields.2, fields.3),
        None => None,
    }
}

/// Whether `name` is among the registered tool names.
pub open spec fn is_registered(registered: Seq<Seq<char>>, name: Seq<char>) -> bool {
    exists|i: int| 0 <= i < registered.len() && registered[i] == name
}

/// A dispatch instruction: which registry slot to invoke, under which name,
/// on which input text. The caller owning the capabilities performs it.
#[derive(Debug)]
pub struct ToolInvocation {
    pub index: usize,
    pub tool: String,
    pub input: String,
}

/// The name-keyed tool registry. It records which capability names exist;
/// the callables themselves live with the caller, slot by slot.
pub struct ToolRegistry {
    names: Vec<String>,
}

impl ToolRegistry {
    /// The registered names, in registration order.
    pub closed spec fn registered(&self) -> Seq<Seq<char>> {
        self.names.deep_view()
    }

    /// An empty registry.
    pub fn new() -> (r: Self)
        ensures
            r.registered() == Seq::<Seq<char>>::empty(),
    {
        let r = ToolRegistry { names: Vec::new() };
        proof {
            assert(r.registered() =~= Seq::<Seq<char>>::empty());
        }
        r
    }

    /// Registers a capability name. `"none"` is reserved by the protocol and
    /// must never be registered as a real tool.
    pub fn register(&mut self, name: &str)
        requires
            name@ != "none"@,
        ensures
            final(self).registered() == old(self).registered().push(name@),
    {
        self.names.push(name.to_owned());
        proof {
            assert(final(self).registered() =~= old(self).registered().push(name@));
        }
    }

    /// Finds the registry slot for `name`: the most recent registration
    /// under that name wins.
    pub fn lookup(&self, name: &str) -> (r: Option<usize>)
        ensures
            r is Some <==> is_registered(self.registered(), name@),
            r matches Some(i) ==> 0 <= i < self.registered().len() && self.registered()[i as int]
                == name@ && (forall|j: int|
                i < j < self.registered().len() ==> self.registered()[j] != name@),
    {
        let mut i: usize = self.names.len();
        while i > 0
            invariant
                0 <= i <= self.registered().len(),
                forall|j: int| i <= j < self.registered().len() ==> self.registered()[j] != name@,
            decreases i,
        {
            i = i - 1;
            if string_eq(&self.names[i], name) {
                proof {
                    assert(self.registered()[i as int] == name@);
                }
                return Some(i);
            }
        }
        None
    }

    /// Resolves a dispatch: yields the invocation to perform, or fails with
    /// `ToolNotFound` — if and only if no capability is registered under
    /// `name`. It never silently yields anything for an unregistered name.
    pub fn dispatch(&self, name: &str, input: &str) -> (r: Result<ToolInvocation, AgentError>)
        ensures
            r is Err <==> !is_registered(self.registered(), name@),
            r matches Ok(inv) ==> 0 <= inv.index < self.registered().len()
                && self.registered()[inv.index as int] == name@ && inv.tool@ == name@
                && inv.input@ == input@,
            r matches Err(e) ==> e@ == AgentErrorModel::ToolNotFound(name@),
    {
        match self.lookup(name) {
            Some(index) => Ok(
                ToolInvocation { index, tool: name.to_owned(), input: input.to_owned() },
            ),
            None => Err(AgentError::ToolNotFound(name.to_owned())),
        }
    }
}

/// Ghost shape of a [`LoopState`].
pub struct LoopStateModel {
    pub interactions: int,
    pub next_prompt: Seq<char>,
}

/// The per-invocation loop state: how many iterations were begun, and the
/// prompt the next iteration will send. Created by [`ReactAgent::start`],
/// discarded on termination.
#[derive(Debug)]
pub struct LoopState {
    interactions: u8,
    next_prompt: String,
}

impl View for LoopState {
    type V = LoopStateModel;

    closed spec fn view(&self) -> LoopStateModel {
        LoopStateModel { interactions: self.interactions as int, next_prompt: self.next_prompt@ }
    }
}

/// What the caller driving the loop must do next.
#[derive(Debug)]
pub enum LoopDirective {
    /// Send this prompt to the completion endpoint and hand the reply to
    /// [`ReactAgent::on_model_reply`].
    CallModel(String),
    /// Invoke this capability on this input text and hand the result to
    /// [`ReactAgent::on_tool_result`].
    CallTool(ToolInvocation),
    /// Ask [`ReactAgent::next_command`] for the next iteration.
    Continue,
    /// The loop answered: this is the final answer text.
    Finish(String),
    /// The loop failed terminally.
    Fail(AgentError),
}

/// The observation-prefixed prompt wrapping an observation for the next
/// iteration.
pub open spec fn observation_prompt(observation: Seq<char>) -> Seq<char> {
    "**Observation**: "@ + observation
}

/// Ghost decision the controller takes on one model reply.
pub enum ReplyDecision {
    /// No usable reply (transport failure or parse failure): retry the same
    /// prompt; the failed attempt still consumed budget.
    Retry,
    /// An `answer` envelope: finish with its thought as the final answer.
    Finish(Seq<char>),
    /// A `pause` envelope with the `"none"` sentinel: the thought itself
    /// becomes the observation.
    Observe(Seq<char>),
    /// A `pause` envelope naming a registered tool: dispatch it.
    Invoke(Seq<char>, Seq<char>),
    /// A `pause` envelope naming an unregistered tool: fail terminally.
    Reject(Seq<char>),
}

/// The controller's decision on one parsed reply, given the registered tool
/// names.
pub open spec fn decide_reply(
    registered: Seq<Seq<char>>,
    parsed: Option<ActionCallModel>,
) -> ReplyDecision {
    match parsed {
        None => ReplyDecision::Retry,
        Some(ac) => if ac.state is ANSWER {
            ReplyDecision::Finish(ac.thought)
        } else if ac.action.tool == "none"@ {
            ReplyDecision::Observe(ac.thought)
        } else if is_registered(registered, ac.action.tool) {
            ReplyDecision::Invoke(ac.action.tool, ac.action.input)
        } else {
            ReplyDecision::Reject(ac.action.tool)
        },
    }
}

/// The envelope carried by one completion-call outcome: a failed call
/// carries none, a reply carries whatever parses out of it.
pub open spec fn reply_envelope(reply: Result<String, AgentError>) -> Option<ActionCallModel> {
    match reply {
        Ok(text) => parsed_action_call(text@),
        Err(_) => None,
    }
}

/// The ReAct loop controller: it owns the loop policy (bounded iterations,
/// retry on transport or parse failure, dispatch on `pause`, terminate on
/// `answer`) and the tool registry. The caller performs the completion and
/// tool calls it directs.
pub struct ReactAgent {
    pub name: String,
    pub description: String,
    max_interactions: u8,
    tools: ToolRegistry,
}

impl ReactAgent {
    /// The agent's name, at the ghost level.
    pub closed spec fn spec_name(&self) -> Seq<char> {
        self.name@
    }

    /// The agent's description, at the ghost level.
    pub closed spec fn spec_description(&self) -> Seq<char> {
        self.description@
    }

    /// The iteration budget: the loop fails before beginning iteration
    /// `budget + 1`.
    pub closed spec fn budget(&self) -> int {
        self.max_interactions as int
    }

    /// The registered tool names, in registration order.
    pub closed spec fn registered_tools(&self) -> Seq<Seq<char>> {
        self.tools.registered()
    }

    /// A controller with no tools; the iteration budget defaults to 10.
    pub fn new(name: String, description: String, max_interactions: Option<u8>) -> (r: Self)
        ensures
            r.spec_name() == name@,
            r.spec_description() == description@,
            r.budget() == match max_interactions {
                Some(m) => m as int,
                None => 10,
            },
            r.registered_tools() == Seq::<Seq<char>>::empty(),
    {
        let budget: u8 = match max_interactions {
            Some(m) => m,
            None => 10,
        };
        ReactAgent { name, description, max_interactions: budget, tools: ToolRegistry::new() }
    }

    pub fn get_name(&self) -> (r: &str)
        ensures
            r@ == self.spec_name(),
    {
        self.name.as_str()
    }

    pub fn get_description(&self) -> (r: &str)
        ensures
            r@ == self.spec_description(),
    {
        self.description.as_str()
    }

    /// Registers a capability name. `"none"` is reserved by the protocol and
    /// must never be registered as a real tool.
    pub fn add_tool(&mut self, name: &str)
        requires
            name@ != "none"@,
        ensures
            final(self).registered_tools() == old(self).registered_tools().push(name@),
            final(self).spec_name() == old(self).spec_name(),
            final(self).spec_description() == old(self).spec_description(),
            final(self).budget() == old(self).budget(),
    {
        self.tools.register(name);
    }

    /// The registry slot registered under `name`, if any.
    pub fn get_tool(&self, name: &str) -> (r: Option<usize>)
        ensures
            r is Some <==> is_registered(self.registered_tools(), name@),
            r matches Some(i) ==> 0 <= i < self.registered_tools().len()
                && self.registered_tools()[i as int] == name@,
    {
        self.tools.lookup(name)
    }

    /// A fresh loop over the user's query: no iteration begun yet, the query
    /// itself is the first prompt.
    pub fn start(&self, user_input: &str) -> (st: LoopState)
        ensures
            st@.interactions == 0,
            st@.next_prompt == user_input@,
    {
        LoopState { interactions: 0, next_prompt: user_input.to_owned() }
    }

    /// Begins the next iteration: fails with `IterationBudgetExceeded` once
    /// the budget is spent — before beginning iteration `budget + 1` —
    /// otherwise consumes one unit of budget and directs the completion call
    /// with the current prompt.
    pub fn next_command(&self, st: &mut LoopState) -> (d: LoopDirective)
        ensures
            old(st)@.interactions >= self.budget() ==> (d matches LoopDirective::Fail(e) && e@
                == AgentErrorModel::IterationBudgetExceeded(self.budget()) && final(st)@ == old(
                st)@),
            old(st)@.interactions < self.budget() ==> (d matches LoopDirective::CallModel(p)
                && p@ == old(st)@.next_prompt && final(st)@.interactions == old(
                st)@.interactions + 1 && final(st)@.next_prompt == old(st)@.next_prompt),
    {
        if st.interactions >= self.max_interactions {
            LoopDirective::Fail(AgentError::IterationBudgetExceeded(self.max_interactions))
        } else {
            st.interactions = st.interactions + 1;
            LoopDirective::CallModel(st.next_prompt.clone())
        }
    }

    /// Takes the completion call's outcome. A transport failure or an
    /// unparseable reply is retried on the same prompt; an `answer` envelope
    /// finishes with its thought; a `pause` envelope either observes its own
    /// thought (tool `"none"`), dispatches a registered tool, or fails with
    /// `ToolNotFound`.
    pub fn on_model_reply(&self, st: &mut LoopState, reply: Result<String, AgentError>) -> (d:
        LoopDirective)
        ensures
            decide_reply(self.registered_tools(), reply_envelope(reply)) is Retry ==> (
            d matches LoopDirective::Continue && final(st)@ == old(st)@),
            decide_reply(self.registered_tools(), reply_envelope(reply)) matches
                ReplyDecision::Finish(answer) ==> (d matches LoopDirective::Finish(a) && a@
                == answer && final(st)@ == old(st)@),
            decide_reply(self.registered_tools(), reply_envelope(reply)) matches
                ReplyDecision::Observe(thought) ==> (d matches LoopDirective::Continue && final(
                st)@.interactions == old(st)@.interactions && final(st)@.next_prompt
                == observation_prompt(thought)),
            decide_reply(self.registered_tools(), reply_envelope(reply)) matches
                ReplyDecision::Invoke(tool, input) ==> (d matches LoopDirective::CallTool(inv)
                && inv.tool@ == tool && inv.input@ == input && is_registered(
                self.registered_tools(),
                tool,
            ) && final(st)@ == old(st)@),
            decide_reply(self.registered_tools(), reply_envelope(reply)) matches
                ReplyDecision::Reject(tool) ==> (d matches LoopDirective::Fail(e) && e@
                == AgentErrorModel::ToolNotFound(tool) && final(st)@ == old(st)@),
    {
        let text = match reply {
            Ok(text) => text,
            Err(_) => {
                return LoopDirective::Continue;
            },
        };
        match parse_action_call(text.as_str()) {
            None => LoopDirective::Continue,
            Some(envelope) => {
                let ActionCall { state, thought, action } = envelope;
                match state {
                    ReactState::ANSWER => LoopDirective::Finish(thought),
                    ReactState::PAUSE => {
                        if !string_eq(&action.tool, "none") {
                            match self.tools.dispatch(action.tool.as_str(), action.input.as_str()) {
                                Ok(invocation) => LoopDirective::CallTool(invocation),
                                Err(e) => LoopDirective::Fail(e),
                            }
                        } else {
                            set_observation(st, thought.as_str());
                            LoopDirective::Continue
                        }
                    },
                }
            },
        }
    }

    /// Takes a dispatched tool's outcome: its result text becomes the next
    /// observation prompt; its failure terminates the loop at once, as it
    /// came.
    pub fn on_tool_result(&self, st: &mut LoopState, result: Result<String, AgentError>) -> (d:
        LoopDirective)
        ensures
            result matches Ok(observation) ==> (d matches LoopDirective::Continue && final(
                st)@.interactions == old(st)@.interactions && final(st)@.next_prompt
                == observation_prompt(observation@)),
            result matches Err(e) ==> (d matches LoopDirective::Fail(e2) && e2 == e && final(
                st)@ == old(st)@),
    {
        match result {
            Ok(observation) => {
                set_observation(st, observation.as_str());
                LoopDirective::Continue
            },
            Err(e) => LoopDirective::Fail(e),
        }
    }
}

/// Wraps an observation into the next iteration's prompt.
fn set_observation(st: &mut LoopState, observation: &str)
    ensures
        final(st)@.interactions == old(st)@.interactions,
        final(st)@.next_prompt == observation_prompt(observation@),
{
    let mut prompt = "**Observation**: ".to_owned();
    prompt.append(observation);
    st.next_prompt = prompt;
}

/// For every well-formed `pause` envelope naming a registered tool, the
/// controller dispatches exactly that tool on exactly that input, and any
/// result the dispatched tool yields becomes, verbatim, the wrapped
/// observation of the next prompt.
pub proof fn lemma_pause_dispatch_observation(
    registered: Seq<Seq<char>>,
    raw: Seq<char>,
    tool_result: Seq<char>,
)
    requires
        parsed_action_call(raw) matches Some(ac) && ac.state is PAUSE && ac.action.tool
            != "none"@ && is_registered(registered, ac.action.tool),
    ensures
        parsed_action_call(raw) matches Some(ac) ==> decide_reply(registered, parsed_action_call(raw))
            == ReplyDecision::Invoke(ac.action.tool, ac.action.input),
        observation_prompt(tool_result) == "**Observation**: "@ + tool_result,
{
}

/// Every `answer` envelope terminates the loop, returning its thought as
/// the final answer, whatever tools are registered.
pub proof fn lemma_answer_finishes(registered: Seq<Seq<char>>, raw: Seq<char>)
    requires
        parsed_action_call(raw) matches Some(ac) && ac.state is ANSWER,
    ensures
        parsed_action_call(raw) matches Some(ac) ==> decide_reply(registered, parsed_action_call(raw))
            == ReplyDecision::Finish(ac.thought),
{
}

/// Every valid `pause` envelope carrying the `"none"` sentinel keeps the
/// loop going: its thought becomes the observation.
pub proof fn lemma_pause_none_observes(registered: Seq<Seq<char>>, parsed: Option<ActionCallModel>)
    requires
        parsed matches Some(ac) && ac.state is PAUSE && ac.action.tool == "none"@,
    ensures
        parsed matches Some(ac) ==> decide_reply(registered, parsed) == ReplyDecision::Observe(
            ac.thought,
        ),
{
}

/// Whether a decision keeps the loop running (and so consumes budget on the
/// next pass): a retry or a thought-only observation.
pub open spec fn continuing(decision: ReplyDecision) -> bool {
    decision is Retry || decision is Observe
}

/// A ghost run of the loop counting budget increments: each pass consumes
/// one reply; once `done` reaches the budget the run fails, having made
/// `Some(k)` further increments; a pass whose decision ends the loop some
/// other way, or an exhausted script, leaves the count open (`None`).
pub open spec fn budget_run(
    registered: Seq<Seq<char>>,
    budget: int,
    done: int,
    replies: Seq<Option<ActionCallModel>>,
) -> Option<int>
    decreases replies.len(),
{
    if done >= budget {
        Some(0)
    } else if replies.len() == 0 {
        None
    } else if continuing(decide_reply(registered, replies[0])) {
        match budget_run(registered, budget, done + 1, replies.drop_first()) {
            Some(k) => Some(k + 1),
            None => None,
        }
    } else {
        None
    }
}

/// If the model always replies with envelopes the loop continues on — for
/// one, valid `pause` envelopes whose tool is `"none"` — a loop that has
/// already begun `done` iterations of its budget fails with
/// `IterationBudgetExceeded` after exactly `budget - done` further
/// increments: never one more.
pub proof fn lemma_budget_exhaustion(
    registered: Seq<Seq<char>>,
    budget: int,
    done: int,
    replies: Seq<Option<ActionCallModel>>,
)
    requires
        0 <= done <= budget,
        replies.len() >= budget - done,
        forall|i: int|
            0 <= i < replies.len() ==> continuing(
                decide_reply(registered, #[trigger] replies[i]),
            ),
    ensures
        budget_run(registered, budget, done, replies) == Some(budget - done),
    decreases replies.len(),
{
    if done < budget {
        assert(continuing(decide_reply(registered, replies[0])));
        assert forall|i: int|
            0 <= i < replies.drop_first().len() implies continuing(
            decide_reply(registered, #[trigger] replies.drop_first()[i]),
        ) by {
            assert(replies.drop_first()[i] == replies[i + 1]);
        }
        lemma_budget_exhaustion(registered, budget, done + 1, replies.drop_first());
    }
}

} // verus!
