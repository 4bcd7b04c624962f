//! The interpreter session: one Python interpreter, the global namespace that
//! persists across runs, the captured console output, the last error and the
//! currently loaded program.
//!
//! Compiling and running go through the interpreter; what the session decides
//! around those calls (which program is kept, which error is shown, what a
//! reset restores) is stated over `SessionView`.
use vstd::prelude::*;
use crate::fault::{Fault, TraceEntry};
use rustpython_vm::builtins::PyCode;
use rustpython_vm::compiler::Mode;
use rustpython_vm::convert::TryFromObject;
use rustpython_vm::scope::Scope;
use rustpython_vm::{AsObject, Interpreter, PyObjectRef, PyRef};
use std::cell::Cell;
use std::rc::Rc;

verus! {

/// rustpython's interpreter, carried as an opaque value.
#[verifier::external_type_specification]
#[verifier::external_body]
pub struct ExInterpreter(Interpreter);

/// rustpython's namespace handle, carried as an opaque value.
#[verifier::external_type_specification]
#[verifier::external_body]
pub struct ExScope(Scope);

/// A reference to a Python object, carried as an opaque value.
#[verifier::external_type_specification]
#[verifier::external_body]
pub struct ExPyObjectRef(PyObjectRef);

/// std's `Cell`, which holds the console buffer that scripts write into.
#[verifier::external_type_specification]
#[verifier::external_body]
#[verifier::reject_recursive_types(T)]
pub struct ExCell<T: ?Sized>(Cell<T>);

/// Relies on `Cell::new`; nothing is stated of the cell.
pub assume_specification<T>[ Cell::<T>::new ](value: T) -> Cell<T>;

/// Relies on `Cell::take`, which hands out the contents and leaves the
/// default value; nothing is stated of the contents.
pub assume_specification<T: Default>[ Cell::<T>::take ](cell: &Cell<T>) -> T
    where
        T: Default,
;

/// Relies on `Cell::set`, which replaces the contents.
pub assume_specification<T>[ Cell::<T>::set ](cell: &Cell<T>, value: T);

/// What compiling `source` as a module reports: `None` when it compiles,
/// else the compiler's diagnostic.
pub uninterp spec fn compile_report(source: Seq<char>) -> Option<Seq<char>>;

/// Relies on `Interpreter::with_init` with the native modules of
/// `rustpython_stdlib::get_module_inits`.
#[verifier::external_body]
fn start_interpreter() -> Interpreter {
    Interpreter::with_init(Default::default(), |vm| {
        vm.add_native_modules(rustpython_stdlib::get_module_inits());
    })
}

/// Relies on `VirtualMachine::new_scope_with_builtins`: an empty global
/// namespace that sees the builtins.
#[verifier::external_body]
fn builtin_scope(interpreter: &Interpreter) -> Scope {
    interpreter.enter(|vm| vm.new_scope_with_builtins())
}

/// Relies on `VirtualMachine::new_function`: a Python function `write(text)`
/// that calls `append_output` on `sink`.
#[verifier::external_body]
fn writer_function(interpreter: &Interpreter, sink: &Rc<Cell<String>>) -> PyObjectRef {
    let sink = sink.clone();
    interpreter.enter(|vm| {
        vm.new_function("write", move |s: String| append_output(&sink, &s)).into()
    })
}

/// Relies on calling the builtin `type`: a new empty class named
/// `class_name`, whose attribute `write` is `write`.
#[verifier::external_body]
fn stream_object(interpreter: &Interpreter, class_name: &str, write: &PyObjectRef) -> Result<PyObjectRef, String> {
    interpreter.enter(|vm| {
        let made = vm.builtins.get_attr("type", vm).and_then(|t| {
            t.call((class_name, vm.ctx.new_tuple(vec![]), vm.ctx.new_dict()), vm)
        });
        made.and_then(|obj| obj.set_attr("write", write.clone(), vm).map(|_| obj))
            .map_err(|e| format!("{:?}", e))
    })
}

/// Relies on `VirtualMachine::import` and `PyObject::set_attr`: sets
/// `module.name` to `value`.
#[verifier::external_body]
fn set_module_attr(interpreter: &Interpreter, module: &'static str, name: &'static str, value: &PyObjectRef) -> Result<(), String> {
    interpreter.enter(|vm| {
        vm.import(module, 0)
            .and_then(|m| m.set_attr(name, value.clone(), vm))
            .map_err(|e| format!("{:?}", e))
    })
}

/// Relies on `PyDict::set_item`: binds `name` to `value` in the namespace,
/// replacing what was bound there.
#[verifier::external_body]
fn bind_global(interpreter: &Interpreter, scope: &Scope, name: &str, value: &PyObjectRef) -> Result<(), String> {
    interpreter.enter(|vm| {
        scope.globals.set_item(name, value.clone(), vm).map_err(|e| format!("{:?}", e))
    })
}

/// Relies on `VirtualMachine::compile` in module mode: with the default
/// settings that every session's interpreter has, whether `source` compiles,
/// and the diagnostic when it does not, depend on the source alone.
/// The code object comes back as a plain object reference.
/// The diagnostic is the pretty `Debug` dump of the compiler's error, which
/// is never empty.
#[verifier::external_body]
fn compile_module(interpreter: &Interpreter, source: &str) -> (r: Result<PyObjectRef, String>)
    ensures
        r is Ok <==> compile_report(source@) is None,
        r is Err ==> compile_report(source@) == Some(r->Err_0@),
        r is Err ==> r->Err_0@.len() > 0,
{
    interpreter.enter(|vm| {
        vm.compile(source, Mode::Exec, "<script>".to_owned())
            .map(|code| code.into())
            .map_err(|e| format!("{:#?}", e))
    })
}

/// Relies on `VirtualMachine::run_code_obj`: runs the code object `unit`
/// against the namespace (an object that is no code object is rustpython's
/// type error). A fault comes back as plain values: its traceback entries,
/// its class name, and its `str()` (empty when that fails).
#[verifier::external_body]
fn execute(interpreter: &Interpreter, unit: &PyObjectRef, scope: &Scope) -> Option<Fault> {
    interpreter.enter(|vm| {
        let run = PyRef::<PyCode>::try_from_object(vm, unit.clone())
            .and_then(|code| vm.run_code_obj(code, scope.clone()));
        run.err().map(|e| Fault {
            trace: e.traceback().iter().flat_map(|tb| tb.iter()).map(|t| TraceEntry {
                file: t.frame.code.source_path.to_string(),
                line: t.lineno.get(),
                function: t.frame.code.obj_name.to_string(),
            }).collect(),
            kind: e.class().name().to_string(),
            message: e.as_object().str(vm).map_or(String::new(), |m| m.to_string()),
        })
    })
}

/// Relies on `rustpython_vm::import::import_source`: runs `source` as the
/// module `name` and makes it importable.
#[verifier::external_body]
fn import_module_source(interpreter: &Interpreter, name: &str, source: &str) -> Result<(), String> {
    interpreter.enter(|vm| {
        rustpython_vm::import::import_source(vm, name, source)
            .map(|_| ())
            .map_err(|e| format!("{:?}", e))
    })
}

/// Relies on `Rc::clone`: a second handle on the same buffer.
#[verifier::external_body]
fn share_capture(sink: &Rc<Cell<String>>) -> (r: Rc<Cell<String>>)
    ensures
        r == *sink,
{
    sink.clone()
}

/// Appends `text` to `buffer`.
pub fn append_text(buffer: &mut String, text: &str)
    ensures
        final(buffer)@ == old(buffer)@ + text@,
{
    buffer.append(text);
}

/// Appends `text` to the console buffer held in `sink`.
fn append_output(sink: &Cell<String>, text: &str) {
    let mut buffer = sink.take();
    append_text(&mut buffer, text);
    sink.set(buffer);
}

/// A copy of the text held in the console buffer `sink`.
fn read_output(sink: &Cell<String>) -> String {
    let buffer = sink.take();
    let copy = buffer.clone();
    sink.set(buffer);
    copy
}

/// The source a new session starts with, before anything is loaded.
pub const WELCOME: &'static str = r#"# The same scope is used each frame (unless reset)
# So we can declare variables using something like:
try: s
except: s = "type here"

# Then we can just call some builtin functions
s, resp = egui.text_edit_singleline(s)

# Including simulated stdout
print("Hello, world!")
print()
print(f"You cannot {s}")"#;

/// The name under which the drawing capability of the current frame is bound.
pub const BRIDGE_KEY: &'static str = "egui";

/// What a session shows of itself: the last source handed to it, the error
/// to display, and whether a compiled program is loaded.
pub struct SessionView {
    pub source: Seq<char>,
    pub error: Option<Seq<char>>,
    pub loaded: bool,
}

/// A session that has just been built around `source`.
pub open spec fn fresh(source: Seq<char>) -> SessionView {
    SessionView { source, error: None, loaded: false }
}

/// The session after `source` was compiled with the outcome `report`
/// (`None` when it compiled): a program that compiles replaces the loaded one
/// and clears the error; one that does not keeps the loaded program and shows
/// the diagnostic.
pub open spec fn after_compile(s: SessionView, source: Seq<char>, report: Option<Seq<char>>) -> SessionView {
    match report {
        None => SessionView { source, error: None, loaded: true },
        Some(d) => SessionView { source, error: Some(d), loaded: s.loaded },
    }
}

/// The session after a run of the loaded program that reported `fault`
/// (`None` for a clean run): the error shown is the run's fault.
pub open spec fn after_run(s: SessionView, fault: Option<Seq<char>>) -> SessionView {
    SessionView { source: s.source, error: fault, loaded: s.loaded }
}

/// The session after `source` was loaded.
pub open spec fn after_load(s: SessionView, source: Seq<char>) -> SessionView {
    after_compile(s, source, compile_report(source))
}

pub struct Runtime {
    interpreter: Interpreter,
    scope: Scope,
    output: Rc<Cell<String>>,
    error: Option<String>,
    code: String,
    code_obj: Option<PyObjectRef>,
}

impl View for Runtime {
    type V = SessionView;

    closed spec fn view(&self) -> SessionView {
        SessionView {
            source: self.code@,
            error: match self.error {
                Some(e) => Some(e@),
                None => None,
            },
            loaded: self.code_obj is Some,
        }
    }
}

impl Runtime {
    /// The compiled program that a run executes.
    pub closed spec fn compiled(&self) -> Option<PyObjectRef> {
        self.code_obj
    }

    /// The global namespace that runs share.
    pub closed spec fn namespace(&self) -> Scope {
        self.scope
    }

    /// The console buffer that runs write into.
    pub closed spec fn capture(&self) -> Rc<Cell<String>> {
        self.output
    }

    /// Builds an interpreter with the standard library, a namespace with the
    /// builtins, and a console buffer that both `print` and the global
    /// `write(text)` append to. An error here is a broken embedding, not a
    /// fault of any script.
    pub fn new() -> (r: Result<Runtime, String>)
        ensures
            r is Ok ==> r->Ok_0@ == fresh(WELCOME@),
    {
        let interpreter = start_interpreter();
        let scope = builtin_scope(&interpreter);
        let output = Rc::new(Cell::new(String::new()));
        let write = writer_function(&interpreter, &output);
        let stdout = match stream_object(&interpreter, "InternalStdout", &write) {
            Ok(o) => o,
            Err(e) => return Err(e),
        };
        if let Err(e) = set_module_attr(&interpreter, "sys", "stdout", &stdout) {
            return Err(e);
        }
        if let Err(e) = bind_global(&interpreter, &scope, "write", &write) {
            return Err(e);
        }
        Ok(Runtime {
            interpreter,
            scope,
            output,
            error: None,
            code: WELCOME.to_owned(),
            code_obj: None,
        })
    }

    /// Compiles `code` and keeps it as the source. Code that compiles
    /// replaces the loaded program and clears the error; code that does not
    /// leaves the loaded program in place and records the diagnostic.
    pub fn load(&mut self, code: String)
        ensures
            final(self)@ == after_load(old(self)@, code@),
            compile_report(code@) is Some ==> final(self).compiled() == old(self).compiled(),
            compile_report(code@) is Some ==> final(self)@.error->0.len() > 0,
            final(self).namespace() == old(self).namespace(),
            final(self).capture() == old(self).capture(),
    {
        let compiled = compile_module(&self.interpreter, code.as_str());
        self.record_compile(code, compiled);
    }

    /// Records how compiling `code` went: `Ok` with the compiled program, or
    /// `Err` with the diagnostic.
    pub fn record_compile(&mut self, code: String, compiled: Result<PyObjectRef, String>)
        ensures
            final(self)@ == after_compile(
                old(self)@,
                code@,
                match compiled {
                    Ok(_) => None,
                    Err(d) => Some(d@),
                },
            ),
            final(self).compiled() == match compiled {
                Ok(obj) => Some(obj),
                Err(_) => old(self).compiled(),
            },
            final(self).namespace() == old(self).namespace(),
            final(self).capture() == old(self).capture(),
    {
        match compiled {
            Ok(obj) => {
                self.code_obj = Some(obj);
                self.error = None;
            },
            Err(diagnostic) => {
                self.error = Some(diagnostic);
            },
        }
        self.code = code;
    }

    /// Runs the loaded program against the shared namespace, after emptying
    /// the console. The error shown afterwards is the run's own outcome: the
    /// fault's traceback (never empty), or none for a clean run. Without a
    /// loaded program nothing happens.
    pub fn run_loaded_code(&mut self)
        ensures
            !old(self)@.loaded ==> *final(self) == *old(self),
            old(self)@.loaded ==> final(self)@ == after_run(old(self)@, final(self)@.error),
            old(self)@.loaded && final(self)@.error is Some ==> final(self)@.error->0.len() > 0,
            final(self).compiled() == old(self).compiled(),
            final(self).namespace() == old(self).namespace(),
            final(self).capture() == old(self).capture(),
    {
        let fault = match &self.code_obj {
            Some(unit) => {
                self.output.set(String::new());
                execute(&self.interpreter, unit, &self.scope)
            },
            None => return,
        };
        let report = match fault {
            Some(f) => Some(f.describe()),
            None => None,
        };
        self.record_run(report);
    }

    /// Records how a run went: `None` for a clean run, else the fault's
    /// printed traceback, which becomes the error shown.
    pub fn record_run(&mut self, fault: Option<String>)
        ensures
            final(self)@ == after_run(
                old(self)@,
                match fault {
                    Some(t) => Some(t@),
                    None => None,
                },
            ),
            final(self).compiled() == old(self).compiled(),
            final(self).namespace() == old(self).namespace(),
            final(self).capture() == old(self).capture(),
    {
        self.error = fault;
    }

    /// Binds `handle`, the drawing capability of the current frame, under
    /// `BRIDGE_KEY`, replacing the one of the frame before.
    pub fn install_bridge(&mut self, handle: &PyObjectRef) -> (r: Result<(), String>)
        ensures
            *final(self) == *old(self),
    {
        bind_global(&self.interpreter, &self.scope, BRIDGE_KEY, handle)
    }

    /// Runs `source` as the module `name`, which scripts can then import:
    /// the place for an auxiliary library shipped with the embedding.
    pub fn import_library(&mut self, name: &str, source: &str) -> (r: Result<(), String>)
        ensures
            *final(self) == *old(self),
    {
        import_module_source(&self.interpreter, name, source)
    }

    /// Replaces the whole session (interpreter, namespace, console, error and
    /// program) by a new one, and loads the current source into it. When a
    /// new session cannot be built the old one stays as it was.
    pub fn reset_state(&mut self) -> (r: Result<(), String>)
        ensures
            r is Ok ==> final(self)@ == after_load(fresh(WELCOME@), old(self)@.source),
            r is Err ==> *final(self) == *old(self),
    {
        let mut next = match Runtime::new() {
            Ok(n) => n,
            Err(e) => return Err(e),
        };
        let code = self.code.clone();
        next.load(code);
        *self = next;
        Ok(())
    }

    /// The error to display: the last compile diagnostic or run fault.
    pub fn error(&self) -> (r: Option<&str>)
        ensures
            r is Some <==> self@.error is Some,
            r is Some ==> r->0@ == self@.error->0,
    {
        match &self.error {
            Some(e) => Some(e.as_str()),
            None => None,
        }
    }

    /// The console buffer that running scripts write into, shared.
    pub fn stdout(&mut self) -> (r: Rc<Cell<String>>)
        ensures
            *final(self) == *old(self),
            r == old(self).capture(),
    {
        share_capture(&self.output)
    }

    /// What the last run wrote to the console.
    pub fn output(&self) -> String {
        read_output(&self.output)
    }

    /// The source last handed to `load`.
    pub fn source(&self) -> (r: &str)
        ensures
            r@ == self@.source,
    {
        self.code.as_str()
    }

    /// The interpreter, for building the objects that `install_bridge` binds.
    pub fn interpreter(&self) -> &Interpreter {
        &self.interpreter
    }
}

/// Loading the source again right after a reset changes nothing: the
/// session is the one that a new session loaded with that source once would
/// be.
pub proof fn reload_after_reset(prev: Seq<char>)
    ensures
        after_load(after_load(fresh(WELCOME@), prev), prev) == after_load(fresh(WELCOME@), prev),
{
}

} // verus!
