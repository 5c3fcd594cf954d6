//! The installer wizard: owns the embedded payload, the chosen destination,
//! the log transcript and the optional hooks, and drives the phase state
//! machine. The single side-effecting step (placing the payload file) runs
//! at most once per wizard, guarded by a flag, the first time the
//! `Installation` phase is entered.

use vstd::prelude::*;
use vstd::string::StringExecFns;

use crate::fsmodel::denied_message;
use crate::fsmodel::FsState;
use crate::phase::spec_detail;
use crate::phase::spec_next;
use crate::phase::InstallError;
use crate::phase::InstallPhase;

verus! {

/// A caller-supplied action run at a fixed point of the installation
/// sequence; it returns text that the wizard appends to its log. The wizard
/// assumes nothing about the text: a hook signals failure only through it.
pub trait InstallHook {
    fn run(&self) -> String;
}

/// The hook that does nothing and reports nothing.
pub struct NoHook;

impl InstallHook for NoHook {
    fn run(&self) -> String {
        String::new()
    }
}

/// The default destination when none is chosen at construction.
pub open spec fn default_install_dir() -> Seq<char> {
    "C:\\Program Files (x86)"@
}

/// The file the payload is installed to: the destination directory, a
/// separator, and the application name with the executable extension.
pub open spec fn target_file_path(dir: Seq<char>, app: Seq<char>) -> Seq<char> {
    dir + "/"@ + app + ".exe"@
}

/// The log line recorded after the destination directory is created.
pub open spec fn dir_created_line(dir: Seq<char>) -> Seq<char> {
    "\nCreating App folder: \n"@ + dir
}

/// The log line recorded after the payload is copied.
pub open spec fn copied_line() -> Seq<char> {
    "\nCopying executable to folder"@
}

/// The label of the proceed control in each phase.
pub open spec fn spec_proceed_label(p: InstallPhase) -> Seq<char> {
    match p {
        InstallPhase::Start => "Install"@,
        InstallPhase::Installation => "Next"@,
        _ => "Finish"@,
    }
}

/// The installer wizard.
pub struct Installer<F: InstallHook> {
    executable: Vec<u8>,
    target_path: String,
    app_name: String,
    installer_output: String,
    post_install_function: Option<F>,
    pre_install_function: Option<F>,
    is_phase_done: bool,
    is_phase_started: bool,
    current_phase: InstallPhase,
}

impl<F: InstallHook> Installer<F> {
    /// The current phase.
    pub closed spec fn phase(self) -> InstallPhase {
        self.current_phase
    }

    /// The log transcript so far.
    pub closed spec fn log(self) -> Seq<char> {
        self.installer_output@
    }

    /// The embedded payload bytes.
    pub closed spec fn payload(self) -> Seq<u8> {
        self.executable@
    }

    /// The chosen destination directory.
    pub closed spec fn dest(self) -> Seq<char> {
        self.target_path@
    }

    /// The application name.
    pub closed spec fn app(self) -> Seq<char> {
        self.app_name@
    }

    /// Whether the install side effect has already been driven.
    pub closed spec fn started(self) -> bool {
        self.is_phase_started
    }

    /// Whether the proceed control is enabled this frame.
    pub closed spec fn ready(self) -> bool {
        self.is_phase_done
    }

    /// A pre-install hook is still pending.
    pub closed spec fn pre_hook_set(self) -> bool {
        self.pre_install_function is Some
    }

    /// A post-install hook is still pending.
    pub closed spec fn post_hook_set(self) -> bool {
        self.post_install_function is Some
    }

    /// The path the payload will be installed to.
    pub open spec fn target(self) -> Seq<char> {
        target_file_path(self.dest(), self.app())
    }

    /// A file already sits at the target path: installing is refused.
    pub open spec fn install_blocked(self, fs: FsState) -> bool {
        fs.has_file(self.target())
    }

    /// Creating the destination directory fails.
    pub open spec fn install_dir_denied(self, fs: FsState) -> bool {
        fs.is_denied_at(self.dest())
    }

    /// Writing the target file fails.
    pub open spec fn install_file_denied(self, fs: FsState) -> bool {
        fs.is_denied_at(self.target())
    }

    /// The install operation succeeds on this filesystem.
    pub open spec fn install_ok(self, fs: FsState) -> bool {
        &&& !self.install_blocked(fs)
        &&& !self.install_dir_denied(fs)
        &&& !self.install_file_denied(fs)
    }

    /// Everything but the log and the hook slots agrees between two wizard
    /// states.
    pub open spec fn agrees_except_log_and_hooks(self, other: Self) -> bool {
        &&& self.phase() == other.phase()
        &&& self.payload() == other.payload()
        &&& self.dest() == other.dest()
        &&& self.app() == other.app()
        &&& self.started() == other.started()
        &&& self.ready() == other.ready()
    }

    /// A fresh wizard: phase `Start`, empty log, no hooks, side effect not
    /// yet driven. Without a chosen destination it falls back to the default
    /// program directory.
    pub fn new(executable: &[u8], target_path: Option<String>, app_name: String) -> (r: Installer<
        F,
    >)
        ensures
            r.phase() is Start,
            r.payload() == executable@,
            r.app() == app_name@,
            (target_path matches Some(p) ==> r.dest() == p@),
            (target_path is None ==> r.dest() == default_install_dir()),
            r.log() == Seq::<char>::empty(),
            !r.started(),
            !r.ready(),
            !r.pre_hook_set(),
            !r.post_hook_set(),
    {
        Installer {
            executable: vstd::slice::slice_to_vec(executable),
            target_path: target_path.unwrap_or("C:\\Program Files (x86)".to_owned()),
            app_name,
            current_phase: InstallPhase::Start,
            installer_output: String::new(),
            post_install_function: None,
            pre_install_function: None,
            is_phase_done: false,
            is_phase_started: false,
        }
    }

    /// Register the hook run once just before the install step.
    pub fn add_pre_install_function(&mut self, f: F)
        ensures
            final(self).pre_hook_set(),
            final(self).post_hook_set() == old(self).post_hook_set(),
            final(self).log() == old(self).log(),
            final(self).agrees_except_log_and_hooks(*old(self)),
    {
        self.pre_install_function = Some(f);
    }

    /// Register the hook run once just after a successful install step.
    pub fn add_post_install_function(&mut self, f: F)
        ensures
            final(self).post_hook_set(),
            final(self).pre_hook_set() == old(self).pre_hook_set(),
            final(self).log() == old(self).log(),
            final(self).agrees_except_log_and_hooks(*old(self)),
    {
        self.post_install_function = Some(f);
    }

    /// Replace the destination directory (user-editable until installation
    /// starts).
    pub fn set_destination(&mut self, path: String)
        ensures
            final(self).dest() == path@,
            final(self).phase() == old(self).phase(),
            final(self).payload() == old(self).payload(),
            final(self).app() == old(self).app(),
            final(self).started() == old(self).started(),
            final(self).ready() == old(self).ready(),
            final(self).log() == old(self).log(),
            final(self).pre_hook_set() == old(self).pre_hook_set(),
            final(self).post_hook_set() == old(self).post_hook_set(),
    {
        self.target_path = path;
    }

    /// The current phase, for the host to render.
    pub fn current_phase(&self) -> (r: &InstallPhase)
        ensures
            *r == self.phase(),
    {
        &self.current_phase
    }

    /// The log transcript, for the host to render.
    pub fn log_text(&self) -> (r: &String)
        ensures
            r@ == self.log(),
    {
        &self.installer_output
    }

    /// The chosen destination directory.
    pub fn destination(&self) -> (r: &String)
        ensures
            r@ == self.dest(),
    {
        &self.target_path
    }

    /// Whether a pre-install hook is still pending.
    pub fn has_pre_install_function(&self) -> (r: bool)
        ensures
            r == self.pre_hook_set(),
    {
        match &self.pre_install_function {
            Some(_) => true,
            None => false,
        }
    }

    /// Whether a post-install hook is still pending.
    pub fn has_post_install_function(&self) -> (r: bool)
        ensures
            r == self.post_hook_set(),
    {
        match &self.post_install_function {
            Some(_) => true,
            None => false,
        }
    }

    /// The embedded payload bytes, for the host that places the real file.
    pub fn payload_bytes(&self) -> (r: &Vec<u8>)
        ensures
            r@ == self.payload(),
    {
        &self.executable
    }

    /// Whether the install side effect has already been driven.
    pub fn is_phase_started(&self) -> (r: bool)
        ensures
            r == self.started(),
    {
        self.is_phase_started
    }

    /// The path the payload will be installed to.
    pub fn install_path(&self) -> (r: String)
        ensures
            r@ == self.target(),
    {
        let mut p = self.target_path.clone();
        p.append("/");
        p.append(self.app_name.as_str());
        p.append(".exe");
        p
    }

    /// The label of the proceed control this frame.
    pub fn proceed_label(&self) -> (r: String)
        ensures
            r@ == spec_proceed_label(self.phase()),
    {
        match &self.current_phase {
            InstallPhase::Start => "Install".to_owned(),
            InstallPhase::Installation => "Next".to_owned(),
            _ => "Finish".to_owned(),
        }
    }

    /// The window heading.
    pub fn heading(&self) -> (r: String)
        ensures
            r@ == self.app() + ", Installer"@,
    {
        self.app_name.clone().concat(", Installer")
    }

    /// The decision after the existence check on the target path: an
    /// existing file refuses the install, conservatively (no locking).
    pub fn record_precheck(&mut self, target_exists: bool) -> (r: Result<(), InstallError>)
        ensures
            *final(self) == *old(self),
            target_exists ==> r == Err::<(), InstallError>(InstallError::AlreadyInstalled),
            !target_exists ==> r is Ok,
    {
        if target_exists {
            Err(InstallError::AlreadyInstalled)
        } else {
            Ok(())
        }
    }

    /// The decision after the directory-creation attempt: on success, record
    /// the log line; on failure, surface the cause.
    pub fn record_dir_created(&mut self, outcome: Result<(), String>) -> (r: Result<
        (),
        InstallError,
    >)
        ensures
            final(self).agrees_except_log_and_hooks(*old(self)),
            final(self).pre_hook_set() == old(self).pre_hook_set(),
            final(self).post_hook_set() == old(self).post_hook_set(),
            outcome is Ok ==> r is Ok && final(self).log() == old(self).log() + dir_created_line(
                old(self).dest(),
            ),
            outcome matches Err(m) ==> r == Err::<(), InstallError>(InstallError::IoFailure(m))
                && final(self).log() == old(self).log(),
    {
        match outcome {
            Ok(()) => {
                self.installer_output.append("\nCreating App folder: \n");
                self.installer_output.append(self.target_path.as_str());
                proof {
                    assert(self.log() =~= old(self).log() + dir_created_line(old(self).dest()));
                }
                Ok(())
            },
            Err(m) => Err(InstallError::IoFailure(m)),
        }
    }

    /// The decision after the payload-write attempt: on success, record the
    /// log line; on failure, surface the cause.
    pub fn record_copied(&mut self, outcome: Result<(), String>) -> (r: Result<(), InstallError>)
        ensures
            final(self).agrees_except_log_and_hooks(*old(self)),
            final(self).pre_hook_set() == old(self).pre_hook_set(),
            final(self).post_hook_set() == old(self).post_hook_set(),
            outcome is Ok ==> r is Ok && final(self).log() == old(self).log() + copied_line(),
            outcome matches Err(m) ==> r == Err::<(), InstallError>(InstallError::IoFailure(m))
                && final(self).log() == old(self).log(),
    {
        match outcome {
            Ok(()) => {
                self.installer_output.append("\nCopying executable to folder");
                Ok(())
            },
            Err(m) => Err(InstallError::IoFailure(m)),
        }
    }

    /// The install operation: refuse if a file already sits at the target
    /// path, create the destination directory, write the payload, and record
    /// a log line after each of the two mutations. A failure partway leaves
    /// the directory in place: no rollback is attempted.
    pub fn install(&mut self, fs: &mut FsState) -> (r: Result<(), InstallError>)
        requires
            old(fs).wf(),
        ensures
            final(fs).wf(),
            final(self).agrees_except_log_and_hooks(*old(self)),
            final(self).pre_hook_set() == old(self).pre_hook_set(),
            final(self).post_hook_set() == old(self).post_hook_set(),
            old(self).install_blocked(*old(fs)) ==> {
                &&& r == Err::<(), InstallError>(InstallError::AlreadyInstalled)
                &&& *final(fs) == *old(fs)
                &&& final(self).log() == old(self).log()
            },
            !old(self).install_blocked(*old(fs)) && old(self).install_dir_denied(*old(fs)) ==> {
                &&& (r matches Err(e) && e matches InstallError::IoFailure(m) && m@
                    == denied_message())
                &&& *final(fs) == *old(fs)
                &&& final(self).log() == old(self).log()
            },
            !old(self).install_blocked(*old(fs)) && !old(self).install_dir_denied(*old(fs))
                && old(self).install_file_denied(*old(fs)) ==> {
                &&& (r matches Err(e) && e matches InstallError::IoFailure(m) && m@
                    == denied_message())
                &&& final(fs).files_model() == old(fs).files_model()
                &&& final(fs).dirs_model() == old(fs).dirs_model().push(old(self).dest())
                &&& final(fs).denied_model() == old(fs).denied_model()
                &&& final(self).log() == old(self).log() + dir_created_line(old(self).dest())
            },
            old(self).install_ok(*old(fs)) ==> {
                &&& r is Ok
                &&& final(fs).has_file(old(self).target())
                &&& final(fs).file_at(old(self).target()) == old(self).payload()
                &&& (forall|q: Seq<char>|
                    q != old(self).target() ==> final(fs).has_file(q) == old(fs).has_file(q))
                &&& (forall|q: Seq<char>|
                    q != old(self).target() && old(fs).has_file(q) ==> final(fs).file_at(q)
                        == old(fs).file_at(q))
                &&& final(fs).dirs_model() == old(fs).dirs_model().push(old(self).dest())
                &&& final(fs).denied_model() == old(fs).denied_model()
                &&& final(self).log() == old(self).log() + dir_created_line(old(self).dest())
                    + copied_line()
            },
    {
        let target = self.install_path();
        let exists = fs.file_exists(&target);
        match self.record_precheck(exists) {
            Err(e) => {
                return Err(e);
            },
            Ok(()) => {},
        }
        let made = fs.create_dir_all(&self.target_path);
        match self.record_dir_created(made) {
            Err(e) => {
                return Err(e);
            },
            Ok(()) => {},
        }
        let wrote = fs.write(&target, vstd::slice::slice_to_vec(self.executable.as_slice()));
        match self.record_copied(wrote) {
            Err(e) => {
                return Err(e);
            },
            Ok(()) => {},
        }
        Ok(())
    }

    /// Guarded start of the Installation phase: on the first call it
    /// consumes the pre-install hook (appending its text to the log), marks
    /// the phase started and reports `true`; on every later call it changes
    /// nothing and reports `false`.
    pub fn begin_phase_entry(&mut self) -> (first: bool)
        requires
            old(self).phase() is Installation,
        ensures
            first == !old(self).started(),
            !first ==> *final(self) == *old(self),
            final(self).started(),
            final(self).phase() == old(self).phase(),
            final(self).payload() == old(self).payload(),
            final(self).dest() == old(self).dest(),
            final(self).app() == old(self).app(),
            final(self).ready() == old(self).ready(),
            final(self).post_hook_set() == old(self).post_hook_set(),
            old(self).log().is_prefix_of(final(self).log()),
            first ==> !final(self).pre_hook_set(),
            first && !old(self).pre_hook_set() ==> final(self).log() == old(self).log(),
    {
        if self.is_phase_started {
            proof {
                lemma_prefix_reflexive(self.log());
            }
            return false;
        }
        if let Some(h) = self.pre_install_function.take() {
            let s = h.run();
            self.installer_output.append(s.as_str());
            proof {
                lemma_prefix_extend(old(self).log(), s@);
            }
        } else {
            proof {
                lemma_prefix_reflexive(self.log());
            }
        }
        self.is_phase_started = true;
        true
    }

    /// Record the install outcome at the end of the first Installation-phase
    /// entry: on success, consume the post-install hook (appending its text
    /// to the log); on failure, move to the `Error` phase carrying the
    /// failure, leaving the post-install hook untouched.
    pub fn complete_install(&mut self, r: Result<(), InstallError>)
        requires
            old(self).phase() is Installation,
        ensures
            final(self).payload() == old(self).payload(),
            final(self).dest() == old(self).dest(),
            final(self).app() == old(self).app(),
            final(self).started() == old(self).started(),
            final(self).ready() == old(self).ready(),
            final(self).pre_hook_set() == old(self).pre_hook_set(),
            old(self).log().is_prefix_of(final(self).log()),
            r is Ok ==> {
                &&& final(self).phase() == old(self).phase()
                &&& !final(self).post_hook_set()
                &&& (!old(self).post_hook_set() ==> final(self).log() == old(self).log())
            },
            r matches Err(e) ==> {
                &&& final(self).phase() == InstallPhase::Error(e)
                &&& final(self).post_hook_set() == old(self).post_hook_set()
                &&& final(self).log() == old(self).log()
            },
    {
        match r {
            Ok(()) => {
                if let Some(h) = self.post_install_function.take() {
                    let s = h.run();
                    self.installer_output.append(s.as_str());
                    proof {
                        lemma_prefix_extend(old(self).log(), s@);
                    }
                } else {
                    proof {
                        lemma_prefix_reflexive(self.log());
                    }
                }
            },
            Err(e) => {
                self.current_phase = InstallPhase::Error(e);
                proof {
                    lemma_prefix_reflexive(self.log());
                }
            },
        }
    }

    /// The Installation-phase entry: on the first frame that renders the
    /// phase, consume the pre-install hook, run the install operation, and
    /// either consume the post-install hook (on success) or move to the
    /// `Error` phase (on failure). Every later frame changes nothing: the
    /// side effect runs at most once per wizard.
    pub fn enter_installation(&mut self, fs: &mut FsState)
        requires
            old(self).phase() is Installation,
            old(fs).wf(),
        ensures
            final(fs).wf(),
            final(self).started(),
            final(self).payload() == old(self).payload(),
            final(self).dest() == old(self).dest(),
            final(self).app() == old(self).app(),
            final(self).ready() == old(self).ready(),
            old(self).log().is_prefix_of(final(self).log()),
            old(self).started() ==> *final(self) == *old(self) && *final(fs) == *old(fs),
            !old(self).started() ==> {
                &&& !final(self).pre_hook_set()
                &&& (old(self).install_blocked(*old(fs)) ==> {
                    &&& final(self).phase() == InstallPhase::Error(InstallError::AlreadyInstalled)
                    &&& *final(fs) == *old(fs)
                    &&& final(self).post_hook_set() == old(self).post_hook_set()
                })
                &&& (!old(self).install_blocked(*old(fs)) && old(self).install_dir_denied(*old(fs))
                    ==> {
                    &&& (final(self).phase() matches InstallPhase::Error(e) && e
                        matches InstallError::IoFailure(m) && m@ == denied_message())
                    &&& *final(fs) == *old(fs)
                    &&& final(self).post_hook_set() == old(self).post_hook_set()
                })
                &&& (!old(self).install_blocked(*old(fs)) && !old(self).install_dir_denied(
                    *old(fs),
                ) && old(self).install_file_denied(*old(fs)) ==> {
                    &&& (final(self).phase() matches InstallPhase::Error(e) && e
                        matches InstallError::IoFailure(m) && m@ == denied_message())
                    &&& final(fs).files_model() == old(fs).files_model()
                    &&& final(fs).dirs_model() == old(fs).dirs_model().push(old(self).dest())
                    &&& final(fs).denied_model() == old(fs).denied_model()
                    &&& final(self).post_hook_set() == old(self).post_hook_set()
                })
                &&& (old(self).install_ok(*old(fs)) ==> {
                    &&& final(self).phase() is Installation
                    &&& !final(self).post_hook_set()
                    &&& final(fs).has_file(old(self).target())
                    &&& final(fs).file_at(old(self).target()) == old(self).payload()
                    &&& (forall|q: Seq<char>|
                        q != old(self).target() ==> final(fs).has_file(q) == old(fs).has_file(q))
                    &&& (forall|q: Seq<char>|
                        q != old(self).target() && old(fs).has_file(q) ==> final(fs).file_at(q)
                            == old(fs).file_at(q))
                    &&& final(fs).dirs_model() == old(fs).dirs_model().push(old(self).dest())
                    &&& final(fs).denied_model() == old(fs).denied_model()
                })
            },
    {
        let first = self.begin_phase_entry();
        if first {
            let r = self.install(fs);
            self.complete_install(r);
        }
    }

    /// Force the wizard to `Finish` at once, skipping any further
    /// transitions. An in-flight install is never interrupted: it completed
    /// synchronously before this can run.
    pub fn cancel(&mut self)
        ensures
            final(self).phase() is Finish,
            final(self).payload() == old(self).payload(),
            final(self).dest() == old(self).dest(),
            final(self).app() == old(self).app(),
            final(self).started() == old(self).started(),
            final(self).ready() == old(self).ready(),
            final(self).log() == old(self).log(),
            final(self).pre_hook_set() == old(self).pre_hook_set(),
            final(self).post_hook_set() == old(self).post_hook_set(),
    {
        self.current_phase = InstallPhase::Finish;
    }

    /// The user's proceed action: advance one step along the wizard's order.
    /// Never offered on `Finish`.
    pub fn proceed(&mut self)
        requires
            !(old(self).phase() is Finish),
        ensures
            final(self).phase() == spec_next(old(self).phase()),
            final(self).payload() == old(self).payload(),
            final(self).dest() == old(self).dest(),
            final(self).app() == old(self).app(),
            final(self).started() == old(self).started(),
            final(self).ready() == old(self).ready(),
            final(self).log() == old(self).log(),
            final(self).pre_hook_set() == old(self).pre_hook_set(),
            final(self).post_hook_set() == old(self).post_hook_set(),
    {
        self.current_phase.next();
    }

    /// The phase-specific text the host renders this frame.
    pub open spec fn spec_body_text(self) -> Seq<char> {
        match self.phase() {
            InstallPhase::Start => "Installation directory: "@,
            InstallPhase::Installation => self.log(),
            InstallPhase::Success => "Program Installed, click \"Finish\" to close the installer."@,
            InstallPhase::Error(e) =>
                "Something went wrong during the installation... Click \"Finish\" to close the installer."@
                + spec_detail(e),
            InstallPhase::Finish => Seq::<char>::empty(),
        }
    }

    /// The phase-specific text the host renders this frame.
    pub fn body_text(&self) -> (r: String)
        ensures
            r@ == self.spec_body_text(),
    {
        match &self.current_phase {
            InstallPhase::Start => "Installation directory: ".to_owned(),
            InstallPhase::Installation => self.installer_output.clone(),
            InstallPhase::Success => "Program Installed, click \"Finish\" to close the installer.".to_owned(),
            InstallPhase::Error(e) =>
                "Something went wrong during the installation... Click \"Finish\" to close the installer.".to_owned().concat(
                e.detail().as_str(),
            ),
            InstallPhase::Finish => String::new(),
        }
    }
}

/// What the user did this frame, as the host reports it: an edit of the
/// destination field, a directory chosen in the folder picker, and clicks of
/// the two persistent controls.
pub struct FrameInput {
    pub edited_path: Option<String>,
    pub picked_directory: Option<String>,
    pub cancel_clicked: bool,
    pub proceed_clicked: bool,
}

/// What the host renders this frame: whether to close the window, the
/// heading, the phase-specific body text, and the proceed control's label
/// and enabled state.
pub struct FrameOutput {
    pub close_requested: bool,
    pub heading: String,
    pub body: String,
    pub proceed_label: String,
    pub proceed_enabled: bool,
}

impl<F: InstallHook> Installer<F> {
    /// The Installation phase has been reached but its entry has not run yet.
    pub open spec fn pending_entry(self) -> bool {
        self.phase() is Installation && !self.started()
    }

    /// One frame of the wizard: render decisions and user-driven mutation.
    /// In `Start`, field edits and the folder picker replace the
    /// destination; the first `Installation` frame drives the install side
    /// effect; `Finish` asks the host to close the window. Then "Cancel"
    /// forces `Finish`, and the proceed control advances one step. The host
    /// never reports a proceed click together with a cancel click or on a
    /// wizard already at `Finish`: past `Finish` lies nothing.
    pub fn update(&mut self, fs: &mut FsState, input: FrameInput) -> (out: FrameOutput)
        requires
            old(fs).wf(),
            input.proceed_clicked ==> !input.cancel_clicked && !(old(self).phase() is Finish),
        ensures
            final(fs).wf(),
            out.close_requested == (old(self).phase() is Finish),
            out.proceed_enabled,
            out.heading@ == old(self).app() + ", Installer"@,
            final(self).ready(),
            final(self).payload() == old(self).payload(),
            final(self).app() == old(self).app(),
            old(self).log().is_prefix_of(final(self).log()),
            final(self).started() == (old(self).started() || old(self).phase() is Installation),
            // the destination: editable in Start, fixed afterwards
            old(self).phase() is Start ==> {
                &&& (input.picked_directory matches Some(p) ==> final(self).dest() == p@)
                &&& (input.picked_directory is None ==> (input.edited_path matches Some(p)
                    ==> final(self).dest() == p@))
                &&& (input.picked_directory is None && input.edited_path is None ==> final(self).dest() == old(self).dest())
            },
            !(old(self).phase() is Start) ==> final(self).dest() == old(self).dest(),
            // the filesystem changes only on the first Installation frame
            !old(self).pending_entry() ==> *final(fs) == *old(fs),
            old(self).pending_entry() ==> {
                &&& (old(self).install_blocked(*old(fs)) || old(self).install_dir_denied(*old(fs))
                    ==> *final(fs) == *old(fs))
                &&& (!old(self).install_blocked(*old(fs)) && !old(self).install_dir_denied(
                    *old(fs),
                ) && old(self).install_file_denied(*old(fs)) ==> {
                    &&& final(fs).files_model() == old(fs).files_model()
                    &&& final(fs).dirs_model() == old(fs).dirs_model().push(old(self).dest())
                    &&& final(fs).denied_model() == old(fs).denied_model()
                })
                &&& (old(self).install_ok(*old(fs)) ==> {
                    &&& final(fs).has_file(old(self).target())
                    &&& final(fs).file_at(old(self).target()) == old(self).payload()
                    &&& (forall|q: Seq<char>|
                        q != old(self).target() ==> final(fs).has_file(q) == old(fs).has_file(q))
                    &&& (forall|q: Seq<char>|
                        q != old(self).target() && old(fs).has_file(q) ==> final(fs).file_at(q)
                            == old(fs).file_at(q))
                    &&& final(fs).dirs_model() == old(fs).dirs_model().push(old(self).dest())
                    &&& final(fs).denied_model() == old(fs).denied_model()
                })
            },
            // the hooks are consumed only by the first Installation frame
            !old(self).pending_entry() ==> {
                &&& final(self).pre_hook_set() == old(self).pre_hook_set()
                &&& final(self).post_hook_set() == old(self).post_hook_set()
            },
            old(self).pending_entry() ==> {
                &&& !final(self).pre_hook_set()
                &&& (old(self).install_ok(*old(fs)) ==> !final(self).post_hook_set())
                &&& (!old(self).install_ok(*old(fs)) ==> final(self).post_hook_set() == old(self).post_hook_set())
            },
            // the phase after the frame
            input.cancel_clicked ==> final(self).phase() is Finish,
            !input.cancel_clicked && !input.proceed_clicked ==> {
                &&& (!old(self).pending_entry() ==> final(self).phase() == old(self).phase())
                &&& (old(self).pending_entry() && old(self).install_blocked(*old(fs)) ==> final(self).phase() == InstallPhase::Error(InstallError::AlreadyInstalled))
                &&& (old(self).pending_entry() && !old(self).install_blocked(*old(fs)) && !old(self).install_ok(*old(fs)) ==> (final(self).phase() matches InstallPhase::Error(e) && e
                    matches InstallError::IoFailure(m) && m@ == denied_message()))
                &&& (old(self).pending_entry() && old(self).install_ok(*old(fs)) ==> final(self).phase() is Installation)
            },
            !input.cancel_clicked && input.proceed_clicked ==> {
                &&& (!old(self).pending_entry() ==> final(self).phase() == spec_next(
                    old(self).phase(),
                ))
                &&& (old(self).pending_entry() && old(self).install_ok(*old(fs)) ==> final(self).phase() is Success)
                &&& (old(self).pending_entry() && !old(self).install_ok(*old(fs)) ==> final(self).phase() is Finish)
            },
            // the proceed control's label
            input.cancel_clicked ==> out.proceed_label@ == "Finish"@,
            !input.cancel_clicked && !old(self).pending_entry() ==> out.proceed_label@
                == spec_proceed_label(old(self).phase()),
            !input.cancel_clicked && old(self).pending_entry() && old(self).install_ok(*old(fs))
                ==> out.proceed_label@ == "Next"@,
            !input.cancel_clicked && old(self).pending_entry() && !old(self).install_ok(*old(fs))
                ==> out.proceed_label@ == "Finish"@,
            // the body text
            old(self).phase() is Installation ==> out.body@ == final(self).log(),
            !(old(self).phase() is Installation) ==> out.body@ == old(self).spec_body_text(),
    {
        let FrameInput { edited_path, picked_directory, cancel_clicked, proceed_clicked } = input;
        self.is_phase_done = true;
        let close_requested = self.current_phase.is_finish();
        let body: String;
        if self.current_phase.is_start() {
            if let Some(p) = edited_path {
                self.target_path = p;
            }
            if let Some(p) = picked_directory {
                self.target_path = p;
            }
            body = "Installation directory: ".to_owned();
        } else if self.current_phase.is_installation() {
            self.enter_installation(fs);
            body = self.installer_output.clone();
        } else {
            body = self.body_text();
        }
        if cancel_clicked {
            self.current_phase = InstallPhase::Finish;
        }
        let label = self.proceed_label();
        let enabled = self.is_phase_done;
        if proceed_clicked {
            self.current_phase.next();
        }
        let heading = self.heading();
        FrameOutput {
            close_requested,
            heading,
            body,
            proceed_label: label,
            proceed_enabled: enabled,
        }
    }
}

/// Every sequence is a prefix of itself.
proof fn lemma_prefix_reflexive(s: Seq<char>)
    ensures
        s.is_prefix_of(s),
{
    assert(s =~= s.subrange(0, s.len() as int));
}

/// A sequence is a prefix of itself extended by anything.
proof fn lemma_prefix_extend(s: Seq<char>, t: Seq<char>)
    ensures
        s.is_prefix_of(s + t),
{
    assert(s =~= (s + t).subrange(0, s.len() as int));
}

} // verus!
