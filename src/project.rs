//! The edited project and the decisions taken each frame: when to reset,
//! reload and rerun the script, and what the console shows.
use vstd::prelude::*;
use crate::session::{after_load, fresh, Runtime, WELCOME};

verus! {

/// When the loaded script is run.
#[derive(Clone, Copy, Debug, PartialEq, Eq, Structural)]
pub enum RunMode {
    /// Every frame, and frames keep coming.
    Continuous,
    /// Every frame that is drawn anyway.
    OnScreenUpdate,
    /// Only after the source was edited.
    OnCodeChange,
    /// Only on request.
    Manual,
}

impl Default for RunMode {
    fn default() -> (r: RunMode)
        ensures
            r == RunMode::OnScreenUpdate,
    {
        RunMode::OnScreenUpdate
    }
}

impl RunMode {
    /// Whether the console offers a button to run by hand.
    pub fn show_run_button(&self) -> (r: bool)
        ensures
            r <==> (*self is OnCodeChange || *self is Manual),
    {
        match self {
            RunMode::OnCodeChange | RunMode::Manual => true,
            _ => false,
        }
    }

    pub open spec fn runs(&self, code_changed: bool) -> bool {
        match self {
            RunMode::Continuous => true,
            RunMode::OnScreenUpdate => true,
            RunMode::OnCodeChange => code_changed,
            RunMode::Manual => false,
        }
    }

    /// Whether this frame runs the script by itself, given whether the
    /// source was edited in it.
    pub fn run_requested(&self, code_changed: bool) -> (r: bool)
        ensures
            r == self.runs(code_changed),
    {
        match self {
            RunMode::Continuous => true,
            RunMode::OnScreenUpdate => true,
            RunMode::OnCodeChange => code_changed,
            RunMode::Manual => false,
        }
    }

    /// Whether another frame must follow this one at once.
    pub fn repaints_continuously(&self) -> (r: bool)
        ensures
            r == (*self is Continuous),
    {
        match self {
            RunMode::Continuous => true,
            _ => false,
        }
    }
}

/// What is kept between sittings: the source and the run mode.
pub struct Project {
    pub code: String,
    pub run_mode: RunMode,
}

impl Default for Project {
    fn default() -> (r: Project)
        ensures
            r.code@ == Seq::<char>::empty(),
            r.run_mode == RunMode::OnScreenUpdate,
    {
        Project { code: String::new(), run_mode: RunMode::default() }
    }
}

/// What the console shows after a frame: the error when there is one, else
/// the captured output, never both.
pub enum Console {
    Error(String),
    Output(String),
}

/// The session after a frame's reset and reload: a reset rebuilds the
/// session around the source it had, and an edit then loads the new source.
pub open spec fn after_frame_start(
    s: crate::session::SessionView,
    reset: bool,
    edited: Option<Seq<char>>,
) -> crate::session::SessionView {
    let s1 = if reset {
        after_load(fresh(WELCOME@), s.source)
    } else {
        s
    };
    match edited {
        Some(code) => after_load(s1, code),
        None => s1,
    }
}

/// The project being edited together with the session that runs it.
pub struct TemplateApp {
    pub project: Project,
    pub runtime: Runtime,
}

impl TemplateApp {
    /// Builds a session for `project` and loads its source.
    pub fn new(project: Project) -> (r: Result<TemplateApp, String>)
        ensures
            r is Ok ==> r->Ok_0.project == project,
            r is Ok ==> r->Ok_0.runtime@ == after_load(fresh(WELCOME@), project.code@),
    {
        let mut runtime = match Runtime::new() {
            Ok(rt) => rt,
            Err(e) => return Err(e),
        };
        runtime.load(project.code.clone());
        Ok(TemplateApp { project, runtime })
    }

    /// The start of a frame: a requested reset rebuilds the session, and an
    /// edited source is loaded. When the session cannot be rebuilt nothing
    /// changes.
    pub fn start_frame(&mut self, reset_requested: bool, code_changed: bool) -> (r: Result<(), String>)
        ensures
            r is Ok ==> final(self).runtime@ == after_frame_start(
                old(self).runtime@,
                reset_requested,
                if code_changed { Some(old(self).project.code@) } else { None },
            ),
            r is Ok ==> final(self).project == old(self).project,
            r is Err ==> *final(self) == *old(self),
            !reset_requested ==> r is Ok,
    {
        if reset_requested {
            if let Err(e) = self.runtime.reset_state() {
                return Err(e);
            }
        }
        if code_changed {
            let code = self.project.code.clone();
            self.runtime.load(code);
        }
        Ok(())
    }

    /// Runs the loaded script when the run mode asks for it this frame or a
    /// run was requested by hand. Returns whether it ran.
    pub fn run_if_due(&mut self, code_changed: bool, force_step: bool) -> (r: bool)
        ensures
            r == (old(self).project.run_mode.runs(code_changed) || force_step),
            !r ==> *final(self) == *old(self),
            final(self).project == old(self).project,
            final(self).runtime@.source == old(self).runtime@.source,
            final(self).runtime@.loaded == old(self).runtime@.loaded,
    {
        if self.project.run_mode.run_requested(code_changed) || force_step {
            self.runtime.run_loaded_code();
            true
        } else {
            false
        }
    }

    /// What the console shows: the error if there is one, else the output.
    pub fn console(&self) -> (r: Console)
        ensures
            r is Error <==> self.runtime@.error is Some,
            r is Error ==> r->Error_0@ == self.runtime@.error->0,
    {
        match self.runtime.error() {
            Some(e) => Console::Error(e.to_owned()),
            None => Console::Output(self.runtime.output()),
        }
    }
}

} // verus!
