//! The `interactive_feedback` tool: its descriptor, the check of its input,
//! the steps that wait for a human reply, and the payload it returns.

use vstd::prelude::*;
use vstd::string::StringExecFns;
use crate::errors::{concat, ToolError, ValidationError};
use crate::json::{entry, field, is_object, object_of_len, pair, string_of, text_entry, JsonValue};
use crate::storage::{
    new_session_id, now_rfc3339, fresh_uuid, session_id_from, turn_session, turn_session_with,
    ConversationSession,
};
use crate::text::{trim, trimmed};

verus! {

pub open spec fn key_project_directory() -> Seq<char> {
    "projectDirectory"@
}

pub open spec fn key_prompt() -> Seq<char> {
    "prompt"@
}

pub open spec fn key_previous_user_request() -> Seq<char> {
    "previousUserRequest"@
}

/// Whether member `name` of `input` is present and a string.
pub open spec fn has_string_field(input: JsonValue, name: Seq<char>) -> bool {
    field(input, name) matches Some(v) && v is Str
}

/// Whether `input` is an object with the three string members the tool needs.
pub open spec fn valid_feedback_input(input: JsonValue) -> bool {
    &&& is_object(input)
    &&& has_string_field(input, key_project_directory())
    &&& has_string_field(input, key_prompt())
    &&& has_string_field(input, key_previous_user_request())
}

/// `e` is the error for member `name` of `input`: missing, or not a string.
pub open spec fn reports_field(e: ValidationError, input: JsonValue, name: Seq<char>) -> bool {
    match e {
        ValidationError::MissingField { field: f } => f@ == name && field(input, name) is None,
        ValidationError::InvalidType { field: f, expected } => {
            &&& f@ == name
            &&& expected@ == "string"@
            &&& field(input, name) is Some
            &&& !has_string_field(input, name)
        },
        _ => false,
    }
}

/// The outcome of checking `input`: the first offending member, in the order
/// projectDirectory, prompt, previousUserRequest, is the one reported.
pub open spec fn validation_matches(input: JsonValue, r: Result<(), ValidationError>) -> bool {
    match r {
        Ok(()) => valid_feedback_input(input),
        Err(e) => if !is_object(input) {
            e matches ValidationError::InvalidInput { message } && message@
                == "Input must be an object"@
        } else if !has_string_field(input, key_project_directory()) {
            reports_field(e, input, key_project_directory())
        } else if !has_string_field(input, key_prompt()) {
            reports_field(e, input, key_prompt())
        } else {
            !has_string_field(input, key_previous_user_request()) && reports_field(
                e,
                input,
                key_previous_user_request(),
            )
        },
    }
}

/// Checks that member `name` of the object `input` is present and a string.
fn check_string_field(input: &JsonValue, name: &str) -> (r: Result<(), ValidationError>)
    ensures
        r is Ok <==> has_string_field(*input, name@),
        r matches Err(e) ==> reports_field(e, *input, name@),
{
    match input.get(name) {
        None => Err(ValidationError::MissingField { field: String::from_str(name) }),
        Some(v) => match v {
            JsonValue::Str(_) => Ok(()),
            _ => Err(
                ValidationError::InvalidType {
                    field: String::from_str(name),
                    expected: String::from_str("string"),
                },
            ),
        },
    }
}

/// The three text arguments of a feedback request.
pub struct FeedbackArgs {
    pub project_directory: String,
    pub prompt: String,
    pub previous_user_request: String,
}

/// Whether `a` holds the three string members of `input`.
pub open spec fn args_of(input: JsonValue, a: FeedbackArgs) -> bool {
    &&& field(input, key_project_directory()) matches Some(v) && string_of(v) == Some(
        a.project_directory@,
    )
    &&& field(input, key_prompt()) matches Some(v) && string_of(v) == Some(a.prompt@)
    &&& field(input, key_previous_user_request()) matches Some(v) && string_of(v) == Some(
        a.previous_user_request@,
    )
}

/// Whether the `required` list of `schema` names `name`.
pub open spec fn requires_member(schema: JsonValue, name: Seq<char>) -> bool {
    field(schema, "required"@) matches Some(JsonValue::Array(items)) && exists|i: int|
        0 <= i < items@.len() && string_of(#[trigger] items@[i]) == Some(name)
}

/// Whether `schema` declares property `name` with type `string`.
pub open spec fn string_property(schema: JsonValue, name: Seq<char>) -> bool {
    field(schema, "properties"@) matches Some(props) && field(props, name) matches Some(p)
        && field(p, "type"@) matches Some(t) && string_of(t) == Some("string"@)
}

/// Whether `schema` describes an object whose three members are required
/// strings.
pub open spec fn feedback_schema(schema: JsonValue) -> bool {
    &&& field(schema, "type"@) matches Some(t) && string_of(t) == Some("object"@)
    &&& requires_member(schema, key_project_directory())
    &&& requires_member(schema, key_prompt())
    &&& requires_member(schema, key_previous_user_request())
    &&& string_property(schema, key_project_directory())
    &&& string_property(schema, key_prompt())
    &&& string_property(schema, key_previous_user_request())
}

/// `{"type":"string","description":<description>}`.
fn string_property_schema(description: &str) -> (r: JsonValue)
    ensures
        field(r, "type"@) matches Some(t) && string_of(t) == Some("string"@),
{
    let r = JsonValue::Object(
        vec![
            (String::from_str("type"), JsonValue::text("string")),
            (String::from_str("description"), JsonValue::text(description)),
        ],
    );
    proof {
        reveal_strlit("type");
        reveal_strlit("description");
        reveal_with_fuel(crate::json::member_value, 3);
    }
    r
}

/// The interactive feedback tool.
pub struct InteractiveFeedbackTool;

impl InteractiveFeedbackTool {
    pub fn new() -> (r: InteractiveFeedbackTool) {
        InteractiveFeedbackTool
    }

    pub open spec fn name_spec() -> Seq<char> {
        "interactive_feedback"@
    }

    /// The name under which the tool is called.
    pub fn name(&self) -> (r: &'static str)
        ensures
            r@ == Self::name_spec(),
    {
        "interactive_feedback"
    }

    pub fn description(&self) -> (r: &'static str)
        ensures
            r@ == "Get interactive feedback from user for development tasks"@,
    {
        "Get interactive feedback from user for development tasks"
    }

    /// The JSON schema of the tool's input.
    pub fn input_schema(&self) -> (r: JsonValue)
        ensures
            feedback_schema(r),
    {
        let properties = JsonValue::Object(
            vec![
                (
                    String::from_str("projectDirectory"),
                    string_property_schema("The project directory path"),
                ),
                (String::from_str("prompt"), string_property_schema("The prompt to show to the user")),
                (
                    String::from_str("previousUserRequest"),
                    string_property_schema(
                        "The previous user request that triggered this interactive feedback",
                    ),
                ),
            ],
        );
        let required = JsonValue::Array(
            vec![
                JsonValue::text("projectDirectory"),
                JsonValue::text("prompt"),
                JsonValue::text("previousUserRequest"),
            ],
        );
        let r = JsonValue::Object(
            vec![
                (String::from_str("type"), JsonValue::text("object")),
                (String::from_str("properties"), properties),
                (String::from_str("required"), required),
            ],
        );
        proof {
            reveal_strlit("type");
            reveal_strlit("properties");
            reveal_strlit("required");
            reveal_strlit("projectDirectory");
            reveal_strlit("prompt");
            reveal_strlit("previousUserRequest");
            reveal_with_fuel(crate::json::member_value, 4);
            let items = r->Object_0@[2].1->Array_0@;
            assert(string_of(items[0]) == Some(key_project_directory()));
            assert(string_of(items[1]) == Some(key_prompt()));
            assert(string_of(items[2]) == Some(key_previous_user_request()));
            assert(field(r, "type"@) matches Some(t) && string_of(t) == Some("object"@));
            let m = r->Object_0@;
            assert("type"@.len() != "required"@.len());
            assert("properties"@.len() != "required"@.len());
            assert("type"@.len() != "properties"@.len());
            assert(m.drop_first().drop_first()[0].0@ == "required"@);
            assert(field(r, "required"@) == Some(required));
            assert(requires_member(r, key_project_directory()));
            assert(requires_member(r, key_prompt()));
            assert(requires_member(r, key_previous_user_request()));
            assert(field(r, "properties"@) == Some(properties));
            assert(string_property(r, key_project_directory()));
            assert(string_property(r, key_prompt()));
            assert(string_property(r, key_previous_user_request()));
        }
        r
    }

    /// Checks `input` against the tool's schema.
    pub fn validate_input(&self, input: &JsonValue) -> (r: Result<(), ValidationError>)
        ensures
            validation_matches(*input, r),
    {
        if !input.is_object() {
            return Err(
                ValidationError::InvalidInput { message: String::from_str("Input must be an object") },
            );
        }
        check_string_field(input, "projectDirectory")?;
        check_string_field(input, "prompt")?;
        check_string_field(input, "previousUserRequest")?;
        Ok(())
    }

    /// Checks `input` and takes out its three text arguments.
    pub fn parse_arguments(&self, input: &JsonValue) -> (r: Result<FeedbackArgs, ValidationError>)
        ensures
            r matches Ok(a) ==> valid_feedback_input(*input) && args_of(*input, a),
            r matches Err(e) ==> validation_matches(*input, Err(e)),
            r is Ok <==> valid_feedback_input(*input),
    {
        self.validate_input(input)?;
        let project_directory = text_member(input, "projectDirectory");
        let prompt = text_member(input, "prompt");
        let previous_user_request = text_member(input, "previousUserRequest");
        Ok(FeedbackArgs { project_directory, prompt, previous_user_request })
    }
}

/// The text of string member `name` of `input`.
fn text_member(input: &JsonValue, name: &str) -> (r: String)
    requires
        has_string_field(*input, name@),
    ensures
        field(*input, name@) matches Some(v) && string_of(v) == Some(r@),
{
    match input.get(name) {
        Some(v) => match v.as_str() {
            Some(s) => s.clone(),
            None => String::new(),
        },
        None => String::new(),
    }
}

/// Whether `j` is one entry of the history snippet, with any id and time.
pub open spec fn history_entry_of(j: JsonValue, role: Seq<char>, content: Seq<char>) -> bool {
    &&& object_of_len(j, 5)
    &&& j->Object_0@[0].0@ == "id"@ && j->Object_0@[0].1 is Str
    &&& j->Object_0@[1].0@ == "timestamp"@ && j->Object_0@[1].1 is Str
    &&& text_entry(j, 2, "role"@, role)
    &&& text_entry(j, 3, "content"@, content)
    &&& entry(j, 4, "is_current"@, JsonValue::Bool(false))
}

/// Whether `h` is the two-entry history returned with a reply: the previous
/// request as a `user` turn, then the prompt as an `assistant` turn.
pub open spec fn history_snippet(h: JsonValue, previous_user_request: Seq<char>, prompt: Seq<char>) -> bool {
    h matches JsonValue::Array(items) && items@.len() == 2 && history_entry_of(
        items@[0],
        "user"@,
        previous_user_request,
    ) && history_entry_of(items@[1], "assistant"@, prompt)
}

/// Whether `p` is the tool's result: empty command logs, the feedback text,
/// and the history snippet `h`.
pub open spec fn feedback_payload(p: JsonValue, feedback: Seq<char>, h: JsonValue) -> bool {
    &&& object_of_len(p, 3)
    &&& text_entry(p, 0, "command_logs"@, Seq::empty())
    &&& text_entry(p, 1, "interactive_feedback"@, feedback)
    &&& entry(p, 2, "conversation_history"@, h)
}

/// One history entry with the given id and time.
pub fn history_entry(id: &str, timestamp: &str, role: &str, content: &str) -> (r: JsonValue)
    ensures
        history_entry_of(r, role@, content@),
        text_entry(r, 0, "id"@, id@),
        text_entry(r, 1, "timestamp"@, timestamp@),
{
    JsonValue::Object(
        vec![
            pair("id", JsonValue::text(id)),
            pair("timestamp", JsonValue::text(timestamp)),
            pair("role", JsonValue::text(role)),
            pair("content", JsonValue::text(content)),
            pair("is_current", JsonValue::Bool(false)),
        ],
    )
}

/// The tool's result for the feedback text `feedback` and history `h`.
pub fn feedback_result(feedback: &str, h: JsonValue) -> (r: JsonValue)
    ensures
        feedback_payload(r, feedback@, h),
{
    let r = JsonValue::Object(
        vec![
            pair("command_logs", JsonValue::Str(String::new())),
            pair("interactive_feedback", JsonValue::text(feedback)),
            pair("conversation_history", h),
        ],
    );
    r
}

/// The message of the error for a collector binary that is not there.
pub open spec fn collector_missing_message() -> Seq<char> {
    "egui binary not found. Please ensure ifm-ruta-egui is built and in the project directory."@
}

/// Where the pipeline of one feedback call stands.
pub enum Stage {
    PrepareStorage,
    SaveSession,
    LocateCollector,
    RunCollector,
    Finished,
}

/// What the caller is to do next for a feedback call.
pub enum Effect {
    /// Make sure the history folder, its README and the `.gitignore` entry
    /// exist, and initialise the store.
    PrepareStorage { project_directory: String },
    /// Store the session.
    SaveSession { session: ConversationSession },
    /// Find the collector binary.
    LocateCollector,
    /// Run the collector with the project directory and the prompt, and wait.
    RunCollector { program: String, project_directory: String, prompt: String },
    /// The call is over with this result.
    Finish(Result<JsonValue, ToolError>),
}

/// How the last effect went.
pub enum StepOutcome {
    Completed,
    Failed { cause: String },
    Located { program: String },
    Missing,
    Exited { success: bool, stdout: String, stderr: String },
}

/// One feedback call in progress.
pub struct FeedbackRun {
    pub args: FeedbackArgs,
    pub stage: Stage,
}

/// Whether `session` records the turn of `args` under a fresh id made from a
/// UUID, at some time.
pub open spec fn fresh_turn_session(session: ConversationSession, args: FeedbackArgs) -> bool {
    exists|u: Seq<char>, now: Seq<char>|
        u.len() == 36 && turn_session(
            session,
            session_id_from(u),
            args.project_directory@,
            args.previous_user_request@,
            args.prompt@,
            now,
        )
}

/// Whether `p` is the tool's result for `feedback`, with a history snippet of
/// the turn of `args`.
pub open spec fn feedback_reply(p: JsonValue, feedback: Seq<char>, args: FeedbackArgs) -> bool {
    exists|h: JsonValue|
        feedback_payload(p, feedback, h) && history_snippet(
            h,
            args.previous_user_request@,
            args.prompt@,
        )
}

/// `e` finishes the call with an execution error whose message is `m`.
pub open spec fn fails_with(e: Effect, m: Seq<char>) -> bool {
    e matches Effect::Finish(Err(ToolError::ExecutionError { message })) && message@ == m
}

/// The effect and the next stage after `outcome` at `stage`.
pub open spec fn advance_spec(
    args: FeedbackArgs,
    stage: Stage,
    outcome: StepOutcome,
    next: Stage,
    effect: Effect,
) -> bool {
    match (stage, outcome) {
        (Stage::PrepareStorage, StepOutcome::Completed) => {
            &&& next is SaveSession
            &&& effect matches Effect::SaveSession { session } && fresh_turn_session(session, args)
        },
        (Stage::PrepareStorage, StepOutcome::Failed { cause }) => next is Finished && fails_with(
            effect,
            cause@,
        ),
        (Stage::SaveSession, StepOutcome::Completed) => next is LocateCollector
            && effect is LocateCollector,
        (Stage::SaveSession, StepOutcome::Failed { cause }) => next is Finished && fails_with(
            effect,
            "Failed to save conversation: "@ + cause@,
        ),
        (Stage::LocateCollector, StepOutcome::Located { program }) => {
            &&& next is RunCollector
            &&& effect matches Effect::RunCollector { program: p, project_directory, prompt }
            &&& p@ == program@
            &&& project_directory@ == args.project_directory@
            &&& prompt@ == args.prompt@
        },
        (Stage::LocateCollector, StepOutcome::Missing) => next is Finished && fails_with(
            effect,
            collector_missing_message(),
        ),
        (Stage::LocateCollector, StepOutcome::Failed { cause }) => next is Finished && fails_with(
            effect,
            cause@,
        ),
        (Stage::RunCollector, StepOutcome::Exited { success, stdout, stderr }) => {
            &&& next is Finished
            &&& if success {
                effect matches Effect::Finish(Ok(p)) && feedback_reply(p, trimmed(stdout@), args)
            } else {
                fails_with(effect, "egui GUI failed: "@ + stderr@)
            }
        },
        (Stage::RunCollector, StepOutcome::Failed { cause }) => next is Finished && fails_with(
            effect,
            "Failed to run egui GUI: "@ + cause@,
        ),
        _ => next is Finished && effect matches Effect::Finish(Err(ToolError::InternalError { .. })),
    }
}

fn execution_error(message: String) -> (r: Effect)
    ensures
        fails_with(r, message@),
{
    Effect::Finish(Err(ToolError::ExecutionError { message }))
}

impl FeedbackRun {
    /// Starts a call: the first step prepares the history storage.
    pub fn start(args: FeedbackArgs) -> (r: (FeedbackRun, Effect))
        ensures
            r.0.args == args,
            r.0.stage is PrepareStorage,
            r.1 matches Effect::PrepareStorage { project_directory } && project_directory@
                == args.project_directory@,
    {
        let dir = args.project_directory.clone();
        (FeedbackRun { args, stage: Stage::PrepareStorage }, Effect::PrepareStorage { project_directory: dir })
    }

    /// Takes the outcome of the last effect and says what to do next. A
    /// failure ends the call at once.
    pub fn advance(&mut self, outcome: StepOutcome) -> (r: Effect)
        ensures
            final(self).args == old(self).args,
            advance_spec(old(self).args, old(self).stage, outcome, final(self).stage, r),
    {
        let ghost st = self.stage;
        let ghost oc = outcome;
        match (&self.stage, outcome) {
            (Stage::PrepareStorage, StepOutcome::Completed) => {
                let session = self.new_turn_session();
                self.stage = Stage::SaveSession;
                Effect::SaveSession { session }
            },
            (Stage::PrepareStorage, StepOutcome::Failed { cause }) => {
                self.stage = Stage::Finished;
                execution_error(cause)
            },
            (Stage::SaveSession, StepOutcome::Completed) => {
                self.stage = Stage::LocateCollector;
                Effect::LocateCollector
            },
            (Stage::SaveSession, StepOutcome::Failed { cause }) => {
                self.stage = Stage::Finished;
                execution_error(concat("Failed to save conversation: ", cause.as_str()))
            },
            (Stage::LocateCollector, StepOutcome::Located { program }) => {
                self.stage = Stage::RunCollector;
                Effect::RunCollector {
                    program,
                    project_directory: self.args.project_directory.clone(),
                    prompt: self.args.prompt.clone(),
                }
            },
            (Stage::LocateCollector, StepOutcome::Missing) => {
                self.stage = Stage::Finished;
                execution_error(
                    String::from_str(
                        "egui binary not found. Please ensure ifm-ruta-egui is built and in the project directory.",
                    ),
                )
            },
            (Stage::LocateCollector, StepOutcome::Failed { cause }) => {
                self.stage = Stage::Finished;
                execution_error(cause)
            },
            (Stage::RunCollector, StepOutcome::Exited { success, stdout, stderr }) => {
                self.stage = Stage::Finished;
                if success {
                    let feedback = trim(stdout.as_str());
                    let h = self.conversation_history();
                    let ghost hg = h;
                    let p = feedback_result(feedback.as_str(), h);
                    assert(feedback_payload(p, trimmed(stdout@), hg));
                    Effect::Finish(Ok(p))
                } else {
                    execution_error(concat("egui GUI failed: ", stderr.as_str()))
                }
            },
            (Stage::RunCollector, StepOutcome::Failed { cause }) => {
                self.stage = Stage::Finished;
                execution_error(concat("Failed to run egui GUI: ", cause.as_str()))
            },
            _ => {
                self.stage = Stage::Finished;
                Effect::Finish(
                    Err(
                        ToolError::InternalError {
                            message: String::from_str("step outcome does not fit the stage"),
                        },
                    ),
                )
            },
        }
    }

    /// The session recorded for this call, with a fresh id and the time now.
    fn new_turn_session(&self) -> (r: ConversationSession)
        ensures
            fresh_turn_session(r, self.args),
    {
        let id = new_session_id();
        let now = now_rfc3339();
        turn_session_with(
            id.as_str(),
            self.args.project_directory.as_str(),
            self.args.previous_user_request.as_str(),
            self.args.prompt.as_str(),
            now.as_str(),
        )
    }

    /// The history snippet of this call, with fresh ids and the time now.
    fn conversation_history(&self) -> (r: JsonValue)
        ensures
            history_snippet(r, self.args.previous_user_request@, self.args.prompt@),
    {
        let id1 = fresh_uuid();
        let t1 = now_rfc3339();
        let first = history_entry(
            id1.as_str(),
            t1.as_str(),
            "user",
            self.args.previous_user_request.as_str(),
        );
        let id2 = fresh_uuid();
        let t2 = now_rfc3339();
        let second = history_entry(id2.as_str(), t2.as_str(), "assistant", self.args.prompt.as_str());
        JsonValue::Array(vec![first, second])
    }
}

} // verus!
