//! The calls into the inference engine, which is a Python module.
//!
//! Each trusted item of this file makes one call through `pyo3` and converts
//! what comes back. Nothing is claimed of what the engine answers: it depends
//! on the interpreter and on the engine's state. The functions around them are
//! verified: one says which call an action of the protocol is, method and
//! arguments; others say which event each answer of the engine becomes.
//!
//! Two calls of the engine are not made here, because a floating-point number
//! goes in or comes out: adding a task, which takes the scale factor, and
//! polling, which brings the elapsed time. The host makes them.

use crate::catalog::{
    catalog_entries, listing, marker, table_view, EngineSymbol, ModelCatalog, SymbolView,
};
use crate::job::{answers, Action, ActionView, Event, EventView};
use crate::text::{chars_of, starts_with_chars};
use pyo3::types::PyAnyMethods;
use std::fmt::Write;
use vstd::prelude::*;
use vstd::string::StringExecFns;

verus! {

#[verifier::external_type_specification]
#[verifier::external_body]
pub struct ExPython<'py>(pyo3::Python<'py>);

#[verifier::external_type_specification]
#[verifier::external_body]
#[verifier::reject_recursive_types(T)]
pub struct ExBound<'py, T>(pyo3::Bound<'py, T>);

#[verifier::external_type_specification]
#[verifier::external_body]
pub struct ExPyAny(pyo3::PyAny);

#[verifier::external_type_specification]
#[verifier::external_body]
pub struct ExPyErr(pyo3::PyErr);

/// The device index that configures the engine for the CPU.
pub const CPU_DEVICE: i32 = -1;

/// The name of the Python module that holds the engine.
pub open spec fn engine_module() -> Seq<char> {
    "sr_vulkan.sr_vulkan"@
}

/// A call into the engine: the method and its arguments, by the shape of the
/// call.
#[derive(Debug)]
pub enum EngineCall {
    /// The method without arguments; what it returns is dropped.
    Command { method: String },
    /// The method with one text; what it returns is dropped.
    CommandWithText { method: String, text: String },
    /// The method without arguments; it returns an integer.
    Query { method: String },
    /// The method with one integer; it returns an integer.
    QueryWithInt { method: String, first: i32 },
    /// The method with two integers; it returns an integer.
    QueryWithInts { method: String, first: i32, second: i32 },
    /// The method without arguments; it returns a text.
    TextQuery { method: String },
    /// The enumeration of the engine's symbol table.
    Enumeration,
}

/// A call into the engine as plain values.
pub enum CallView {
    Command { method: Seq<char> },
    CommandWithText { method: Seq<char>, text: Seq<char> },
    Query { method: Seq<char> },
    QueryWithInt { method: Seq<char>, first: i32 },
    QueryWithInts { method: Seq<char>, first: i32, second: i32 },
    TextQuery { method: Seq<char> },
    Enumeration,
}

impl View for EngineCall {
    type V = CallView;

    open spec fn view(&self) -> CallView {
        match self {
            EngineCall::Command { method } => CallView::Command { method: method@ },
            EngineCall::CommandWithText { method, text } => CallView::CommandWithText {
                method: method@,
                text: text@,
            },
            EngineCall::Query { method } => CallView::Query { method: method@ },
            EngineCall::QueryWithInt { method, first } => CallView::QueryWithInt {
                method: method@,
                first: *first,
            },
            EngineCall::QueryWithInts { method, first, second } => CallView::QueryWithInts {
                method: method@,
                first: *first,
                second: *second,
            },
            EngineCall::TextQuery { method } => CallView::TextQuery { method: method@ },
            EngineCall::Enumeration => CallView::Enumeration,
        }
    }
}

/// The call into the engine that an action of the protocol is, where the
/// library makes it: the engine's method with its arguments. The actions that
/// have no call here are left to the host.
pub open spec fn engine_call(action: ActionView) -> Option<CallView> {
    match action {
        ActionView::SetModelPath { path } => Some(
            CallView::CommandWithText { method: "setModelPath"@, text: path },
        ),
        ActionView::Init => Some(CallView::Query { method: "init"@ }),
        ActionView::QueryCpuCores => Some(CallView::Query { method: "getCpuCoreNum"@ }),
        ActionView::ConfigureCpu { cores } => Some(
            CallView::QueryWithInts { method: "initSet"@, first: CPU_DEVICE, second: cores },
        ),
        ActionView::ConfigureGpu { gpu_id } => Some(
            CallView::QueryWithInt { method: "initSet"@, first: gpu_id },
        ),
        ActionView::EnumerateSymbols => Some(CallView::Enumeration),
        ActionView::QueryLastError => Some(CallView::TextQuery { method: "getLastError"@ }),
        ActionView::Stop => Some(CallView::Command { method: "stop"@ }),
        _ => None,
    }
}

/// The action is a call into the engine that this library makes itself.
pub open spec fn is_engine_call(action: ActionView) -> bool {
    engine_call(action) is Some
}

/// The event is of the kind that a call brings: an error, or what the shape
/// of the call returns.
pub open spec fn brings(call: CallView, event: EventView) -> bool {
    event is Failed || match call {
        CallView::Command { .. } => event is Done,
        CallView::CommandWithText { .. } => event is Done,
        CallView::Query { .. } => event is Code,
        CallView::QueryWithInt { .. } => event is Code,
        CallView::QueryWithInts { .. } => event is Code,
        CallView::TextQuery { .. } => event is Text,
        CallView::Enumeration => event is Symbols,
    }
}

/// The text is the listing of the models of some symbol table.
pub open spec fn is_listing(text: Seq<char>) -> bool {
    exists|table: Seq<SymbolView>| text == listing(#[trigger] catalog_entries(table))
}

/// What a listing reports where the interpreter cannot be attached to.
pub open spec fn unavailable() -> Seq<char> {
    "the Python interpreter is not available"@
}

/// Every event that a call brings answers the action that the call is.
pub proof fn lemma_call_answers_action(action: ActionView, event: EventView)
    requires
        engine_call(action) is Some,
        brings(engine_call(action)->0, event),
    ensures
        answers(action, event),
{
}

/// `Python::import`, with the module handed back as a plain object. Nothing
/// is claimed of the result.
#[verifier::external_body]
fn import_engine<'py>(py: pyo3::Python<'py>, name: &str) -> (r: Result<
    pyo3::Bound<'py, pyo3::PyAny>,
    pyo3::PyErr,
>) {
    py.import(name).map(pyo3::Bound::into_any)
}

/// `PyAnyMethods::call_method0`, the result dropped. Nothing is claimed of
/// what the call does.
#[verifier::external_body]
fn call_plain(engine: &pyo3::Bound<'_, pyo3::PyAny>, method: &str) -> (r: Result<(), pyo3::PyErr>) {
    engine.call_method0(method).map(drop)
}

/// `PyAnyMethods::call_method1` with one text, the result dropped. Nothing is
/// claimed of what the call does.
#[verifier::external_body]
fn call_with_text(engine: &pyo3::Bound<'_, pyo3::PyAny>, method: &str, text: &str) -> (r: Result<
    (),
    pyo3::PyErr,
>) {
    engine.call_method1(method, (text,)).map(drop)
}

/// `PyAnyMethods::call_method0`, the result extracted as an integer. Nothing
/// is claimed of the result.
#[verifier::external_body]
fn call_for_int(engine: &pyo3::Bound<'_, pyo3::PyAny>, method: &str) -> (r: Result<
    i32,
    pyo3::PyErr,
>) {
    engine.call_method0(method)?.extract()
}

/// `PyAnyMethods::call_method1` with one integer, the result extracted as an
/// integer. Nothing is claimed of the result.
#[verifier::external_body]
fn call_with_int(engine: &pyo3::Bound<'_, pyo3::PyAny>, method: &str, first: i32) -> (r: Result<
    i32,
    pyo3::PyErr,
>) {
    engine.call_method1(method, (first,))?.extract()
}

/// `PyAnyMethods::call_method1` with two integers, the result extracted as an
/// integer. Nothing is claimed of the result.
#[verifier::external_body]
fn call_with_ints(
    engine: &pyo3::Bound<'_, pyo3::PyAny>,
    method: &str,
    first: i32,
    second: i32,
) -> (r: Result<i32, pyo3::PyErr>) {
    engine.call_method1(method, (first, second))?.extract()
}

/// `PyAnyMethods::call_method0`, the result extracted as a text. Nothing is
/// claimed of the result.
#[verifier::external_body]
fn call_for_text(engine: &pyo3::Bound<'_, pyo3::PyAny>, method: &str) -> (r: Result<
    String,
    pyo3::PyErr,
>) {
    engine.call_method0(method)?.extract()
}

/// `PyAnyMethods::dir`, the names extracted as texts. Nothing is claimed of
/// the result.
#[verifier::external_body]
fn attribute_names(engine: &pyo3::Bound<'_, pyo3::PyAny>) -> (r: Result<
    Vec<String>,
    pyo3::PyErr,
>) {
    engine.dir()?.extract()
}

/// `PyAnyMethods::getattr`, the value extracted as an integer; nothing where
/// there is no such attribute or its value is no integer. Nothing is claimed
/// of the result.
#[verifier::external_body]
fn integer_attribute(engine: &pyo3::Bound<'_, pyo3::PyAny>, name: &str) -> (r: Option<i32>) {
    match engine.getattr(name) {
        Ok(value) => value.extract().ok(),
        Err(_) => None,
    }
}

/// The `Display` text of a `PyErr`, written into a new text. Where the
/// formatting breaks off, what was written until then is kept. Nothing is
/// claimed of the result.
#[verifier::external_body]
fn error_text(error: &pyo3::PyErr) -> (r: String) {
    let mut text = String::new();
    let _ = write!(text, "{}", error);
    text
}

/// `Python::initialize`: starts the interpreter where none runs in this
/// process.
#[verifier::external_body]
fn start_interpreter() {
    pyo3::Python::initialize()
}

/// `Python::try_attach` around the listing of the engine's models: nothing
/// where the interpreter cannot be attached to, else what the listing
/// returned while attached.
#[verifier::external_body]
fn attach_and_list() -> (r: Option<Result<String, String>>)
    ensures
        r matches Some(Ok(text)) ==> is_listing(text@),
{
    pyo3::Python::try_attach(|py| listing_or_message(py))
}

/// The name of the Python module that holds the engine.
pub fn engine_module_name() -> (r: &'static str)
    ensures
        r@ == engine_module(),
{
    "sr_vulkan.sr_vulkan"
}

/// Imports the module that holds the engine.
pub fn open_engine<'py>(py: pyo3::Python<'py>) -> (r: Result<
    pyo3::Bound<'py, pyo3::PyAny>,
    pyo3::PyErr,
>) {
    import_engine(py, engine_module_name())
}

/// The call into the engine that an action is, where the library makes it.
pub fn call_for(action: &Action) -> (r: Option<EngineCall>)
    ensures
        match r {
            Some(call) => engine_call(action@) == Some(call@),
            None => engine_call(action@) is None,
        },
{
    match action {
        Action::SetModelPath { path } => Some(
            EngineCall::CommandWithText {
                method: String::from_str("setModelPath"),
                text: path.clone(),
            },
        ),
        Action::Init => Some(EngineCall::Query { method: String::from_str("init") }),
        Action::QueryCpuCores => Some(
            EngineCall::Query { method: String::from_str("getCpuCoreNum") },
        ),
        Action::ConfigureCpu { cores } => Some(
            EngineCall::QueryWithInts {
                method: String::from_str("initSet"),
                first: CPU_DEVICE,
                second: *cores,
            },
        ),
        Action::ConfigureGpu { gpu_id } => Some(
            EngineCall::QueryWithInt { method: String::from_str("initSet"), first: *gpu_id },
        ),
        Action::EnumerateSymbols => Some(EngineCall::Enumeration),
        Action::QueryLastError => Some(
            EngineCall::TextQuery { method: String::from_str("getLastError") },
        ),
        Action::Stop => Some(EngineCall::Command { method: String::from_str("stop") }),
        _ => None,
    }
}

/// Enumerates the engine's symbol table: every name of the module, and the
/// integer value of each name that begins with the marker of the models. The
/// value of no other name is asked for.
pub fn enumerate_symbols(engine: &pyo3::Bound<'_, pyo3::PyAny>) -> (r: Result<
    Vec<EngineSymbol>,
    pyo3::PyErr,
>)
    ensures
        r matches Ok(symbols) ==> forall|i: int|
            0 <= i < symbols.len() && !marker().is_prefix_of((#[trigger] symbols[i]).name@)
                ==> symbols[i].value is None,
{
    match attribute_names(engine) {
        Ok(names) => Ok(symbols_of_names(engine, &names)),
        Err(error) => Err(error),
    }
}

/// The symbols of the engine for the names that it enumerated: one symbol for
/// each name, in the order of the names. A name that begins with the marker of
/// the models has the integer value that the engine gives for it, where it
/// gives one; the value of no other name is asked for.
pub fn symbols_of_names(engine: &pyo3::Bound<'_, pyo3::PyAny>, names: &Vec<String>) -> (symbols:
    Vec<EngineSymbol>)
    ensures
        symbols.len() == names.len(),
        forall|i: int| 0 <= i < symbols.len() ==> (#[trigger] symbols[i]).name@ == names[i]@,
        forall|i: int|
            0 <= i < symbols.len() && !marker().is_prefix_of((#[trigger] symbols[i]).name@)
                ==> symbols[i].value is None,
{
    let marker_chars = chars_of("MODEL_");
    let mut symbols: Vec<EngineSymbol> = Vec::new();
    let mut i: usize = 0;
    while i < names.len()
        invariant
            i <= names.len(),
            symbols.len() == i,
            marker_chars@ == marker(),
            forall|k: int| 0 <= k < symbols.len() ==> (#[trigger] symbols[k]).name@ == names[k]@,
            forall|k: int|
                0 <= k < symbols.len() && !marker().is_prefix_of((#[trigger] symbols[k]).name@)
                    ==> symbols[k].value is None,
        decreases names.len() - i,
    {
        let name = names[i].clone();
        let value = if starts_with_chars(&chars_of(name.as_str()), &marker_chars) {
            integer_attribute(engine, name.as_str())
        } else {
            None
        };
        symbols.push(EngineSymbol { name, value });
        i += 1;
    }
    symbols
}

/// Turns the answer of a call that brings nothing into an event.
pub fn done_event(answer: Result<(), pyo3::PyErr>) -> (r: Event)
    ensures
        match answer {
            Ok(_) => r@ == EventView::Done,
            Err(_) => r@ is Failed,
        },
{
    match answer {
        Ok(_) => Event::Done,
        Err(error) => Event::Failed(error_text(&error)),
    }
}

/// Turns the answer of a call that brings an integer into an event.
pub fn code_event(answer: Result<i32, pyo3::PyErr>) -> (r: Event)
    ensures
        match answer {
            Ok(code) => r@ == EventView::Code(code),
            Err(_) => r@ is Failed,
        },
{
    match answer {
        Ok(code) => Event::Code(code),
        Err(error) => Event::Failed(error_text(&error)),
    }
}

/// Turns the answer of a call that brings a text into an event.
pub fn text_event(answer: Result<String, pyo3::PyErr>) -> (r: Event)
    ensures
        match answer {
            Ok(text) => r@ == EventView::Text(text@),
            Err(_) => r@ is Failed,
        },
{
    match answer {
        Ok(text) => Event::Text(text),
        Err(error) => Event::Failed(error_text(&error)),
    }
}

/// Turns the answer of an enumeration into an event.
pub fn symbols_event(answer: Result<Vec<EngineSymbol>, pyo3::PyErr>) -> (r: Event)
    ensures
        match answer {
            Ok(symbols) => r@ == EventView::Symbols(table_view(symbols@)),
            Err(_) => r@ is Failed,
        },
{
    match answer {
        Ok(symbols) => Event::Symbols(symbols),
        Err(error) => Event::Failed(error_text(&error)),
    }
}

/// Makes the call, and returns what came of it as an event of the kind that
/// the call brings.
pub fn make_call(engine: &pyo3::Bound<'_, pyo3::PyAny>, call: &EngineCall) -> (r: Event)
    ensures
        brings(call@, r@),
{
    match call {
        EngineCall::Command { method } => done_event(call_plain(engine, method.as_str())),
        EngineCall::CommandWithText { method, text } => done_event(
            call_with_text(engine, method.as_str(), text.as_str()),
        ),
        EngineCall::Query { method } => code_event(call_for_int(engine, method.as_str())),
        EngineCall::QueryWithInt { method, first } => code_event(
            call_with_int(engine, method.as_str(), *first),
        ),
        EngineCall::QueryWithInts { method, first, second } => code_event(
            call_with_ints(engine, method.as_str(), *first, *second),
        ),
        EngineCall::TextQuery { method } => text_event(call_for_text(engine, method.as_str())),
        EngineCall::Enumeration => symbols_event(enumerate_symbols(engine)),
    }
}

/// Performs the action where it is a call into the engine that this library
/// makes: the call is the one that `engine_call` gives for the action, and
/// what came of it is returned as an event of the kind that answers the
/// action. Every other action is left to the host.
pub fn perform(engine: &pyo3::Bound<'_, pyo3::PyAny>, action: &Action) -> (r: Option<Event>)
    ensures
        r is Some <==> is_engine_call(action@),
        r matches Some(event) ==> brings(engine_call(action@)->0, event@) && answers(
            action@,
            event@,
        ),
{
    match call_for(action) {
        Some(call) => {
            let event = make_call(engine, &call);
            proof {
                lemma_call_answers_action(action@, event@);
            }
            Some(event)
        },
        None => None,
    }
}

/// The listing of the models of the engine module: imports the module,
/// enumerates its symbols and lists the catalog built from them.
pub fn py_list_models<'py>(py: pyo3::Python<'py>) -> (r: Result<String, pyo3::PyErr>)
    ensures
        r matches Ok(text) ==> is_listing(text@),
{
    let engine = match open_engine(py) {
        Ok(engine) => engine,
        Err(error) => {
            return Err(error);
        },
    };
    match enumerate_symbols(&engine) {
        Ok(symbols) => Ok(listing_of_symbols(symbols)),
        Err(error) => Err(error),
    }
}

/// The listing of the models among the symbols that an engine enumerated, by
/// family.
pub fn listing_of_symbols(symbols: Vec<EngineSymbol>) -> (text: String)
    ensures
        text@ == listing(catalog_entries(table_view(symbols@))),
{
    ModelCatalog::build(symbols).format_listing()
}

/// The listing of the models of the engine module, or the text of the error
/// that the interpreter raised.
fn listing_or_message<'py>(py: pyo3::Python<'py>) -> (r: Result<String, String>)
    ensures
        r matches Ok(text) ==> is_listing(text@),
{
    match py_list_models(py) {
        Ok(text) => Ok(text),
        Err(error) => Err(error_text(&error)),
    }
}

/// What a listing reports for what came of the attachment: the listing or
/// the error that was returned while attached, or that the interpreter is not
/// available.
pub fn listed_or_unavailable(attached: Option<Result<String, String>>) -> (r: Result<
    String,
    String,
>)
    ensures
        match attached {
            Some(Ok(text)) => r matches Ok(t) && t@ == text@,
            Some(Err(message)) => r matches Err(m) && m@ == message@,
            None => r matches Err(m) && m@ == unavailable(),
        },
{
    match attached {
        Some(listed) => listed,
        None => Err(String::from_str("the Python interpreter is not available")),
    }
}

/// Lists the models of the engine by family: starts the interpreter where
/// none runs, attaches to it, and lists the models of the engine module. An
/// error that the interpreter raised is returned as its text.
pub fn list_models() -> (r: Result<String, String>)
    ensures
        r matches Ok(text) ==> is_listing(text@),
{
    start_interpreter();
    listed_or_unavailable(attach_and_list())
}

} // verus!
