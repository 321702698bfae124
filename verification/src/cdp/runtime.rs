//! The `Runtime` domain: evaluating script and inspecting its objects.
use vstd::prelude::*;
use crate::cdp::{Command, Params, opt_string_m, opt_string_raw_m, objs_m, object, bool_m, str_m, opt_i64_m, opt_bool_m, opt_str_m};

verus! {

/// What `Runtime.evaluate` runs, and how; the timeout, when given, as its JSON text.
#[derive(Debug, Clone)]
pub struct EvaluateParams {
    pub expression: String,
    pub object_group: Option<String>,
    pub include_command_line_api: Option<bool>,
    pub silent: Option<bool>,
    pub context_id: Option<i64>,
    pub return_by_value: Option<bool>,
    pub generate_preview: Option<bool>,
    pub user_gesture: Option<bool>,
    pub await_promise: Option<bool>,
    pub throw_on_side_effect: Option<bool>,
    pub timeout: Option<String>,
    pub unique_context_id: Option<String>,
}

/// The members of a `EvaluateParams`: those it has, in name order.
pub open spec fn evaluate_params_members(v: EvaluateParams) -> Seq<Seq<char>> {
    opt_bool_m("awaitPromise"@, v.await_promise) + opt_i64_m("contextId"@, v.context_id)
        + str_m("expression"@, v.expression@) + opt_bool_m("generatePreview"@, v.generate_preview)
        + opt_bool_m("includeCommandLineApi"@, v.include_command_line_api)
        + opt_string_m("objectGroup"@, v.object_group)
        + opt_bool_m("returnByValue"@, v.return_by_value) + opt_bool_m("silent"@, v.silent)
        + opt_bool_m("throwOnSideEffect"@, v.throw_on_side_effect)
        + opt_string_raw_m("timeout"@, v.timeout)
        + opt_string_m("uniqueContextId"@, v.unique_context_id)
        + opt_bool_m("userGesture"@, v.user_gesture)
}

fn evaluate_params_params(v: &EvaluateParams) -> (p: Params)
    ensures
        p.members() == evaluate_params_members(*v),
{
    let mut p = Params::new();
    p.opt_flag("awaitPromise", v.await_promise);
    p.opt_i64("contextId", v.context_id);
    p.text("expression", v.expression.as_str());
    p.opt_flag("generatePreview", v.generate_preview);
    p.opt_flag("includeCommandLineApi", v.include_command_line_api);
    p.opt_string("objectGroup", &v.object_group);
    p.opt_flag("returnByValue", v.return_by_value);
    p.opt_flag("silent", v.silent);
    p.opt_flag("throwOnSideEffect", v.throw_on_side_effect);
    p.opt_raw_string("timeout", &v.timeout);
    p.opt_string("uniqueContextId", &v.unique_context_id);
    p.opt_flag("userGesture", v.user_gesture);
    assert(p.members() =~= evaluate_params_members(*v));
    p
}

impl EvaluateParams {
    /// Evaluate the expression, with every option left out.
    pub fn new(expression: &str) -> (p: Self)
        ensures
            p.expression@ == expression@,
            p.object_group is None && p.include_command_line_api is None && p.silent is None,
            p.context_id is None && p.return_by_value is None && p.generate_preview is None,
            p.user_gesture is None && p.await_promise is None && p.throw_on_side_effect is None,
            p.timeout is None && p.unique_context_id is None,
    {
        EvaluateParams {
            expression: expression.to_owned(),
            object_group: None,
            include_command_line_api: None,
            silent: None,
            context_id: None,
            return_by_value: None,
            generate_preview: None,
            user_gesture: None,
            await_promise: None,
            throw_on_side_effect: None,
            timeout: None,
            unique_context_id: None,
        }
    }

    /// Wait for a promise that the expression gives.
    pub fn await_promise(self) -> (p: Self)
        ensures
            p == (EvaluateParams { await_promise: Some(true), ..self }),
    {
        EvaluateParams { await_promise: Some(true), ..self }
    }

    /// Give the result by value.
    pub fn return_by_value(self) -> (p: Self)
        ensures
            p == (EvaluateParams { return_by_value: Some(true), ..self }),
    {
        EvaluateParams { return_by_value: Some(true), ..self }
    }

    /// Run in the given execution context.
    pub fn context_id(self, id: i64) -> (p: Self)
        ensures
            p == (EvaluateParams { context_id: Some(id), ..self }),
    {
        EvaluateParams { context_id: Some(id), ..self }
    }

    /// Keep exceptions from pausing the debugger.
    pub fn silent(self) -> (p: Self)
        ensures
            p == (EvaluateParams { silent: Some(true), ..self }),
    {
        EvaluateParams { silent: Some(true), ..self }
    }

    /// Stop after the given milliseconds, given as a JSON number.
    pub fn timeout_ms(self, ms: String) -> (p: Self)
        ensures
            p == (EvaluateParams { timeout: Some(ms), ..self }),
    {
        EvaluateParams { timeout: Some(ms), ..self }
    }
}

/// An argument of a function call: a value (as its JSON text), an unserializable value, or a remote object.
#[derive(Debug, Clone)]
pub struct CallArgument {
    pub value: Option<String>,
    pub unserializable_value: Option<String>,
    pub object_id: Option<String>,
}

/// The members of a `CallArgument`: those it has, in name order.
pub open spec fn call_argument_members(v: CallArgument) -> Seq<Seq<char>> {
    opt_string_m("objectId"@, v.object_id)
        + opt_string_m("unserializableValue"@, v.unserializable_value)
        + opt_string_raw_m("value"@, v.value)
}

fn call_argument_params(v: &CallArgument) -> (p: Params)
    ensures
        p.members() == call_argument_members(*v),
{
    let mut p = Params::new();
    p.opt_string("objectId", &v.object_id);
    p.opt_string("unserializableValue", &v.unserializable_value);
    p.opt_raw_string("value", &v.value);
    assert(p.members() =~= call_argument_members(*v));
    p
}

fn call_argument_list(items: &Vec<CallArgument>) -> (r: Vec<Params>)
    ensures
        r@.map_values(|p: Params| p.members()) == items@.map_values(|v: CallArgument| call_argument_members(v)),
{
    let mut r: Vec<Params> = Vec::new();
    let mut i: usize = 0;
    while i < items.len()
        invariant
            i <= items@.len(),
            r@.len() == i,
            forall|j: int| 0 <= j < i ==> #[trigger] r@[j].members() == call_argument_members(items@[j]),
        decreases items@.len() - i,
    {
        r.push(call_argument_params(&items[i]));
        i = i + 1;
    }
    assert(r@.map_values(|p: Params| p.members()) =~= items@.map_values(|v: CallArgument| call_argument_members(v)));
    r
}

/// What `Runtime.callFunctionOn` calls, on what, with which arguments.
#[derive(Debug, Clone)]
pub struct CallFunctionOnParams {
    pub function_declaration: String,
    pub object_id: Option<String>,
    pub arguments: Option<Vec<CallArgument>>,
    pub silent: Option<bool>,
    pub return_by_value: Option<bool>,
    pub generate_preview: Option<bool>,
    pub user_gesture: Option<bool>,
    pub await_promise: Option<bool>,
    pub execution_context_id: Option<i64>,
    pub object_group: Option<String>,
}

/// The members of a `CallFunctionOnParams`: those it has, in name order.
pub open spec fn call_function_on_params_members(v: CallFunctionOnParams) -> Seq<Seq<char>> {
    (match v.arguments {
        Some(a) => objs_m("arguments"@, a@.map_values(|x: CallArgument| call_argument_members(x))),
        None => Seq::empty(),
    })
        + opt_bool_m("awaitPromise"@, v.await_promise)
        + opt_i64_m("executionContextId"@, v.execution_context_id)
        + str_m("functionDeclaration"@, v.function_declaration@)
        + opt_bool_m("generatePreview"@, v.generate_preview)
        + opt_string_m("objectGroup"@, v.object_group) + opt_string_m("objectId"@, v.object_id)
        + opt_bool_m("returnByValue"@, v.return_by_value) + opt_bool_m("silent"@, v.silent)
        + opt_bool_m("userGesture"@, v.user_gesture)
}

fn call_function_on_params_params(v: &CallFunctionOnParams) -> (p: Params)
    ensures
        p.members() == call_function_on_params_members(*v),
{
    let mut p = Params::new();
    match &v.arguments { Some(a) => p.nested_list("arguments", call_argument_list(a)), None => {} }
    p.opt_flag("awaitPromise", v.await_promise);
    p.opt_i64("executionContextId", v.execution_context_id);
    p.text("functionDeclaration", v.function_declaration.as_str());
    p.opt_flag("generatePreview", v.generate_preview);
    p.opt_string("objectGroup", &v.object_group);
    p.opt_string("objectId", &v.object_id);
    p.opt_flag("returnByValue", v.return_by_value);
    p.opt_flag("silent", v.silent);
    p.opt_flag("userGesture", v.user_gesture);
    assert(p.members() =~= call_function_on_params_members(*v));
    p
}

impl CallFunctionOnParams {
    /// Call the function, with every option left out.
    pub fn new(function_declaration: &str) -> (p: Self)
        ensures
            p.function_declaration@ == function_declaration@,
            p.object_id is None && p.arguments is None && p.silent is None && p.return_by_value is None,
            p.generate_preview is None && p.user_gesture is None && p.await_promise is None,
            p.execution_context_id is None && p.object_group is None,
    {
        CallFunctionOnParams {
            function_declaration: function_declaration.to_owned(),
            object_id: None,
            arguments: None,
            silent: None,
            return_by_value: None,
            generate_preview: None,
            user_gesture: None,
            await_promise: None,
            execution_context_id: None,
            object_group: None,
        }
    }

    /// Call it on the given remote object.
    pub fn object_id(self, id: &str) -> (p: Self)
        ensures
            p.object_id matches Some(o) && o@ == id@,
            p == (CallFunctionOnParams { object_id: p.object_id, ..self }),
    {
        CallFunctionOnParams { object_id: Some(id.to_owned()), ..self }
    }

    /// Add an argument with the value of the given JSON text, after those
    /// already given.
    pub fn arg_value(self, value: String) -> (p: Self)
        ensures
            p.arguments matches Some(a) && a@ == (match self.arguments {
                Some(b) => b@,
                None => Seq::empty(),
            }).push(CallArgument { value: Some(value), unserializable_value: None, object_id: None }),
            p == (CallFunctionOnParams { arguments: p.arguments, ..self }),
    {
        let arg = CallArgument { value: Some(value), unserializable_value: None, object_id: None };
        let mut args = match self.arguments {
            Some(a) => a,
            None => Vec::new(),
        };
        args.push(arg);
        CallFunctionOnParams { arguments: Some(args), ..self }
    }

    /// Wait for a promise that the function gives.
    pub fn await_promise(self) -> (p: Self)
        ensures
            p == (CallFunctionOnParams { await_promise: Some(true), ..self }),
    {
        CallFunctionOnParams { await_promise: Some(true), ..self }
    }

    /// Give the result by value.
    pub fn return_by_value(self) -> (p: Self)
        ensures
            p == (CallFunctionOnParams { return_by_value: Some(true), ..self }),
    {
        CallFunctionOnParams { return_by_value: Some(true), ..self }
    }
}

/// The `Runtime.evaluate` command.
pub fn evaluate(params: &EvaluateParams) -> (c: Command)
    ensures
        c.method@ == "Runtime.evaluate"@,
        c.params@ == object(evaluate_params_members(*params)),
{
    let p = evaluate_params_params(params);
    p.command("Runtime.evaluate")
}

/// The `Runtime.callFunctionOn` command.
pub fn call_function_on(params: &CallFunctionOnParams) -> (c: Command)
    ensures
        c.method@ == "Runtime.callFunctionOn"@,
        c.params@ == object(call_function_on_params_members(*params)),
{
    let p = call_function_on_params_params(params);
    p.command("Runtime.callFunctionOn")
}

/// The `Runtime.enable` command.
pub fn enable() -> (c: Command)
    ensures
        c.method@ == "Runtime.enable"@,
        c.params@ == object(Seq::empty()),
{
    let p = Params::new();
    p.command("Runtime.enable")
}

/// The `Runtime.disable` command.
pub fn disable() -> (c: Command)
    ensures
        c.method@ == "Runtime.disable"@,
        c.params@ == object(Seq::empty()),
{
    let p = Params::new();
    p.command("Runtime.disable")
}

/// The `Runtime.getProperties` command. Each optional parameter is sent only
/// when given.
pub fn get_properties(
    object_id: &str,
    own_properties: Option<bool>,
    accessor_properties_only: Option<bool>,
    generate_preview: Option<bool>,
) -> (c: Command)
    ensures
        c.method@ == "Runtime.getProperties"@,
        c.params@ == object(opt_bool_m("accessorPropertiesOnly"@, accessor_properties_only)
            + opt_bool_m("generatePreview"@, generate_preview)
            + str_m("objectId"@, object_id@)
            + opt_bool_m("ownProperties"@, own_properties)),
{
    let mut p = Params::new();
    p.opt_flag("accessorPropertiesOnly", accessor_properties_only);
    p.opt_flag("generatePreview", generate_preview);
    p.text("objectId", object_id);
    p.opt_flag("ownProperties", own_properties);
    assert(p.members() =~= opt_bool_m("accessorPropertiesOnly"@, accessor_properties_only)
        + opt_bool_m("generatePreview"@, generate_preview)
        + str_m("objectId"@, object_id@)
        + opt_bool_m("ownProperties"@, own_properties));
    p.command("Runtime.getProperties")
}

/// The `Runtime.releaseObject` command.
pub fn release_object(object_id: &str) -> (c: Command)
    ensures
        c.method@ == "Runtime.releaseObject"@,
        c.params@ == object(str_m("objectId"@, object_id@)),
{
    let mut p = Params::new();
    p.text("objectId", object_id);
    assert(p.members() =~= str_m("objectId"@, object_id@));
    p.command("Runtime.releaseObject")
}

/// The `Runtime.releaseObjectGroup` command.
pub fn release_object_group(object_group: &str) -> (c: Command)
    ensures
        c.method@ == "Runtime.releaseObjectGroup"@,
        c.params@ == object(str_m("objectGroup"@, object_group@)),
{
    let mut p = Params::new();
    p.text("objectGroup", object_group);
    assert(p.members() =~= str_m("objectGroup"@, object_group@));
    p.command("Runtime.releaseObjectGroup")
}

/// The `Runtime.addBinding` command. Each optional parameter is sent only when
/// given.
pub fn add_binding(
    name: &str,
    execution_context_id: Option<i64>,
    execution_context_name: Option<&str>,
) -> (c: Command)
    ensures
        c.method@ == "Runtime.addBinding"@,
        c.params@ == object(opt_i64_m("executionContextId"@, execution_context_id)
            + opt_str_m("executionContextName"@, execution_context_name)
            + str_m("name"@, name@)),
{
    let mut p = Params::new();
    p.opt_i64("executionContextId", execution_context_id);
    p.opt_text("executionContextName", execution_context_name);
    p.text("name", name);
    assert(p.members() =~= opt_i64_m("executionContextId"@, execution_context_id)
        + opt_str_m("executionContextName"@, execution_context_name)
        + str_m("name"@, name@));
    p.command("Runtime.addBinding")
}

/// The `Runtime.removeBinding` command.
pub fn remove_binding(name: &str) -> (c: Command)
    ensures
        c.method@ == "Runtime.removeBinding"@,
        c.params@ == object(str_m("name"@, name@)),
{
    let mut p = Params::new();
    p.text("name", name);
    assert(p.members() =~= str_m("name"@, name@));
    p.command("Runtime.removeBinding")
}

/// The `Runtime.discardConsoleEntries` command.
pub fn discard_console_entries() -> (c: Command)
    ensures
        c.method@ == "Runtime.discardConsoleEntries"@,
        c.params@ == object(Seq::empty()),
{
    let p = Params::new();
    p.command("Runtime.discardConsoleEntries")
}

/// The `Runtime.runIfWaitingForDebugger` command.
pub fn run_if_waiting_for_debugger() -> (c: Command)
    ensures
        c.method@ == "Runtime.runIfWaitingForDebugger"@,
        c.params@ == object(Seq::empty()),
{
    let p = Params::new();
    p.command("Runtime.runIfWaitingForDebugger")
}

/// The `Runtime.compileScript` command. Its optional parameter is sent only
/// when given.
pub fn compile_script(
    expression: &str,
    source_url: &str,
    persist_script: bool,
    execution_context_id: Option<i64>,
) -> (c: Command)
    ensures
        c.method@ == "Runtime.compileScript"@,
        c.params@ == object(opt_i64_m("executionContextId"@, execution_context_id)
            + str_m("expression"@, expression@)
            + bool_m("persistScript"@, persist_script)
            + str_m("sourceURL"@, source_url@)),
{
    let mut p = Params::new();
    p.opt_i64("executionContextId", execution_context_id);
    p.text("expression", expression);
    p.flag("persistScript", persist_script);
    p.text("sourceURL", source_url);
    assert(p.members() =~= opt_i64_m("executionContextId"@, execution_context_id)
        + str_m("expression"@, expression@)
        + bool_m("persistScript"@, persist_script)
        + str_m("sourceURL"@, source_url@));
    p.command("Runtime.compileScript")
}

/// The `Runtime.runScript` command. Each optional parameter is sent only when
/// given.
pub fn run_script(
    script_id: &str,
    execution_context_id: Option<i64>,
    await_promise: Option<bool>,
) -> (c: Command)
    ensures
        c.method@ == "Runtime.runScript"@,
        c.params@ == object(opt_bool_m("awaitPromise"@, await_promise)
            + opt_i64_m("executionContextId"@, execution_context_id)
            + str_m("scriptId"@, script_id@)),
{
    let mut p = Params::new();
    p.opt_flag("awaitPromise", await_promise);
    p.opt_i64("executionContextId", execution_context_id);
    p.text("scriptId", script_id);
    assert(p.members() =~= opt_bool_m("awaitPromise"@, await_promise)
        + opt_i64_m("executionContextId"@, execution_context_id)
        + str_m("scriptId"@, script_id@));
    p.command("Runtime.runScript")
}

/// The `Runtime.getHeapUsage` command.
pub fn get_heap_usage() -> (c: Command)
    ensures
        c.method@ == "Runtime.getHeapUsage"@,
        c.params@ == object(Seq::empty()),
{
    let p = Params::new();
    p.command("Runtime.getHeapUsage")
}

} // verus!
