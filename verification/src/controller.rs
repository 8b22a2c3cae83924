//! The navigation controller: a state machine from (screen, key event) to
//! (new session state, requested backend action). Backend work itself is
//! performed outside; its outcome is handed back through the `load_*`,
//! `switch_context`, `exec_pod`, `copy_pod` and `apply_preview` methods,
//! which merge it into the session state and escalate every failure into
//! a message screen.

use vstd::prelude::*;
use crate::selection::{up_cursor, down_cursor};
use crate::session::{App, AppState, PODS_PREVIEW_INDEX};
use crate::session::{same_lists, same_selected, same_texts, same_mark, unchanged};
use crate::text::{push_char, pop_char, labeled_message};

verus! {

/// A key event, as the controller sees it. The global quit key is
/// intercepted by the event loop before any of this runs.
#[derive(Clone, Copy, Debug)]
pub enum Key {
    Up,
    Down,
    Right,
    Enter,
    Esc,
    Backspace,
    Char(char),
    Other,
}

/// A backend call the controller asks its caller to perform. The caller
/// runs it and hands the outcome back to the matching `App` method.
#[derive(Debug, PartialEq)]
pub enum Action {
    LoadContexts,
    LoadNamespaces,
    LoadPodsForExec { namespace: String },
    LoadPodsForCopy { namespace: String },
    SwitchContext { name: String },
    ExecPod { namespace: String, pod: String },
    CopyPod { namespace: String, source_pod: String, new_name: String },
    PreviewPods { namespace: String },
}

/// The debounce policy: a highlighted main-menu index asks for a preview
/// call exactly when it differs from the last recorded index and is the
/// pod-listing entry.
pub open spec fn preview_requested(last: Option<usize>, new_index: usize) -> bool {
    new_index == PODS_PREVIEW_INDEX && last != Some(new_index)
}

/// Debounce law: once an index change has been recorded (the mark always
/// becomes `Some(new_index)`), a further change to the same index
/// requests no preview call.
pub proof fn lemma_preview_debounced(new_index: usize)
    ensures
        !preview_requested(Some(new_index), new_index),
{
}

impl App {
    /// The highlighted main-menu index changed (or was re-announced):
    /// when it is unchanged this is a no-op; otherwise the preview pane is
    /// cleared, the index is recorded, and a preview call is requested for
    /// the pod-listing entry alone. Preview failures never become blocking
    /// messages (see `apply_preview`).
    pub fn on_index_changed(&mut self, new_index: usize) -> (r: Option<Action>)
        requires
            old(self).wf(),
        ensures
            final(self).wf(),
            final(self).state == old(self).state,
            same_lists(*old(self), *final(self)),
            same_selected(*old(self), *final(self)),
            final(self).default_namespace == old(self).default_namespace,
            final(self).new_pod_name == old(self).new_pod_name,
            final(self).message == old(self).message,
            final(self).last_main_menu_index == Some(new_index),
            old(self).last_main_menu_index == Some(new_index) ==> final(self).output == old(
                self,
            ).output,
            old(self).last_main_menu_index != Some(new_index) ==> final(self).output@
                == Seq::<char>::empty(),
            r is Some <==> preview_requested(old(self).last_main_menu_index, new_index),
            r matches Some(act) ==> (act matches Action::PreviewPods { namespace }
                && namespace@ == old(self).spec_current_namespace()),
    {
        let already = match self.last_main_menu_index {
            Some(last) => last == new_index,
            None => false,
        };
        if already {
            return None;
        }
        self.output = String::new();
        self.last_main_menu_index = Some(new_index);
        if new_index == PODS_PREVIEW_INDEX {
            Some(Action::PreviewPods { namespace: self.current_namespace() })
        } else {
            None
        }
    }

    /// Merge a fetched context listing: on success the context list is
    /// replaced (cursor reset to the first entry) and the context picker
    /// opens; on failure the labelled error becomes the message screen and
    /// the prior listing stays untouched.
    pub fn load_contexts(&mut self, fetched: Result<Vec<String>, String>)
        requires
            old(self).wf(),
        ensures
            final(self).wf(),
            same_selected(*old(self), *final(self)),
            same_mark(*old(self), *final(self)),
            final(self).commands == old(self).commands,
            final(self).namespaces == old(self).namespaces,
            final(self).pods == old(self).pods,
            final(self).default_namespace == old(self).default_namespace,
            final(self).new_pod_name == old(self).new_pod_name,
            final(self).output == old(self).output,
            fetched matches Ok(list) ==> final(self).contexts.items == list,
            fetched matches Ok(list) ==> final(self).contexts.cursor == (if list@.len() > 0 {
                Some(0usize)
            } else {
                None::<usize>
            }),
            fetched is Ok ==> final(self).state == AppState::ContextSelection,
            fetched is Ok ==> final(self).message == old(self).message,
            fetched is Err ==> final(self).contexts == old(self).contexts,
            fetched is Err ==> final(self).state == AppState::Message,
            fetched matches Err(e) ==> final(self).message@ == "Error loading contexts: "@ + e@,
    {
        match fetched {
            Ok(list) => {
                self.contexts.replace(list);
                self.state = AppState::ContextSelection;
            },
            Err(e) => {
                self.message = labeled_message("Error loading contexts: ", &e);
                self.state = AppState::Message;
            },
        }
    }

    /// Merge a fetched namespace listing: on success the namespace list is
    /// replaced (cursor reset to the first entry) and the namespace picker
    /// opens; on failure the labelled error becomes the message screen and
    /// the prior listing stays untouched.
    pub fn load_namespaces(&mut self, fetched: Result<Vec<String>, String>)
        requires
            old(self).wf(),
        ensures
            final(self).wf(),
            same_selected(*old(self), *final(self)),
            same_mark(*old(self), *final(self)),
            final(self).commands == old(self).commands,
            final(self).contexts == old(self).contexts,
            final(self).pods == old(self).pods,
            final(self).default_namespace == old(self).default_namespace,
            final(self).new_pod_name == old(self).new_pod_name,
            final(self).output == old(self).output,
            fetched matches Ok(list) ==> final(self).namespaces.items == list,
            fetched matches Ok(list) ==> final(self).namespaces.cursor == (if list@.len() > 0 {
                Some(0usize)
            } else {
                None::<usize>
            }),
            fetched is Ok ==> final(self).state == AppState::NamespaceSelection,
            fetched is Ok ==> final(self).message == old(self).message,
            fetched is Err ==> final(self).namespaces == old(self).namespaces,
            fetched is Err ==> final(self).state == AppState::Message,
            fetched matches Err(e) ==> final(self).message@ == "Error loading namespaces: "@ + e@,
    {
        match fetched {
            Ok(list) => {
                self.namespaces.replace(list);
                self.state = AppState::NamespaceSelection;
            },
            Err(e) => {
                self.message = labeled_message("Error loading namespaces: ", &e);
                self.state = AppState::Message;
            },
        }
    }

    /// Merge a fetched pod listing: on success the shared pod list is
    /// replaced (cursor reset to the first entry) and the exec picker or
    /// the copy picker opens, as requested; on failure the labelled error
    /// becomes the message screen and the prior listing stays untouched.
    pub fn load_pods(&mut self, for_copy: bool, fetched: Result<Vec<String>, String>)
        requires
            old(self).wf(),
        ensures
            final(self).wf(),
            same_selected(*old(self), *final(self)),
            same_mark(*old(self), *final(self)),
            final(self).commands == old(self).commands,
            final(self).namespaces == old(self).namespaces,
            final(self).contexts == old(self).contexts,
            final(self).default_namespace == old(self).default_namespace,
            final(self).new_pod_name == old(self).new_pod_name,
            final(self).output == old(self).output,
            fetched matches Ok(list) ==> final(self).pods.items == list,
            fetched matches Ok(list) ==> final(self).pods.cursor == (if list@.len() > 0 {
                Some(0usize)
            } else {
                None::<usize>
            }),
            fetched is Ok ==> final(self).state == (if for_copy {
                AppState::PodSelection
            } else {
                AppState::ExecPodSelection
            }),
            fetched is Ok ==> final(self).message == old(self).message,
            fetched is Err ==> final(self).pods == old(self).pods,
            fetched is Err ==> final(self).state == AppState::Message,
            fetched matches Err(e) ==> final(self).message@ == "Error loading pods: "@ + e@,
    {
        match fetched {
            Ok(list) => {
                self.pods.replace(list);
                self.state = if for_copy {
                    AppState::PodSelection
                } else {
                    AppState::ExecPodSelection
                };
            },
            Err(e) => {
                self.message = labeled_message("Error loading pods: ", &e);
                self.state = AppState::Message;
            },
        }
    }

    /// Merge the outcome of a context switch: on success the switched-to
    /// name is remembered and the main menu returns; on failure the
    /// labelled error becomes the message screen and the remembered
    /// context stays untouched.
    pub fn switch_context(&mut self, name: String, outcome: Result<(), String>)
        requires
            old(self).wf(),
        ensures
            final(self).wf(),
            same_lists(*old(self), *final(self)),
            same_mark(*old(self), *final(self)),
            final(self).selected_namespace == old(self).selected_namespace,
            final(self).selected_pod == old(self).selected_pod,
            final(self).default_namespace == old(self).default_namespace,
            final(self).new_pod_name == old(self).new_pod_name,
            final(self).output == old(self).output,
            outcome is Ok ==> final(self).selected_context == Some(name),
            outcome is Ok ==> final(self).state == AppState::MainMenu,
            outcome is Ok ==> final(self).message == old(self).message,
            outcome is Err ==> final(self).selected_context == old(self).selected_context,
            outcome is Err ==> final(self).state == AppState::Message,
            outcome matches Err(e) ==> final(self).message@ == "Error switching context: "@ + e@,
    {
        match outcome {
            Ok(()) => {
                self.selected_context = Some(name);
                self.state = AppState::MainMenu;
            },
            Err(e) => {
                self.message = labeled_message("Error switching context: ", &e);
                self.state = AppState::Message;
            },
        }
    }

    /// Merge the outcome of an interactive exec: captured output (success
    /// or failure text of the command itself) is shown on the output
    /// screen; a launch failure becomes the labelled message screen.
    pub fn exec_pod(&mut self, outcome: Result<String, String>)
        requires
            old(self).wf(),
        ensures
            final(self).wf(),
            same_lists(*old(self), *final(self)),
            same_selected(*old(self), *final(self)),
            same_mark(*old(self), *final(self)),
            final(self).default_namespace == old(self).default_namespace,
            final(self).new_pod_name == old(self).new_pod_name,
            outcome matches Ok(text) ==> final(self).output == text,
            outcome is Ok ==> final(self).state == AppState::ShowOutput,
            outcome is Ok ==> final(self).message == old(self).message,
            outcome is Err ==> final(self).output == old(self).output,
            outcome is Err ==> final(self).state == AppState::Message,
            outcome matches Err(e) ==> final(self).message@ == "Error exec into pod: "@ + e@,
    {
        match outcome {
            Ok(text) => {
                self.output = text;
                self.state = AppState::ShowOutput;
            },
            Err(e) => {
                self.message = labeled_message("Error exec into pod: ", &e);
                self.state = AppState::Message;
            },
        }
    }

    /// Merge the outcome of a pod copy: captured output is shown on the
    /// output screen, a launch failure becomes the labelled message
    /// screen, and in either case the remembered source pod and the typed
    /// name are cleared.
    pub fn copy_pod(&mut self, outcome: Result<String, String>)
        requires
            old(self).wf(),
        ensures
            final(self).wf(),
            same_lists(*old(self), *final(self)),
            same_mark(*old(self), *final(self)),
            final(self).selected_namespace == old(self).selected_namespace,
            final(self).selected_context == old(self).selected_context,
            final(self).default_namespace == old(self).default_namespace,
            final(self).selected_pod is None,
            final(self).new_pod_name@ == Seq::<char>::empty(),
            outcome matches Ok(text) ==> final(self).output == text,
            outcome is Ok ==> final(self).state == AppState::ShowOutput,
            outcome is Ok ==> final(self).message == old(self).message,
            outcome is Err ==> final(self).output == old(self).output,
            outcome is Err ==> final(self).state == AppState::Message,
            outcome matches Err(e) ==> final(self).message@ == "Error copying pod: "@ + e@,
    {
        match outcome {
            Ok(text) => {
                self.output = text;
                self.state = AppState::ShowOutput;
            },
            Err(e) => {
                self.message = labeled_message("Error copying pod: ", &e);
                self.state = AppState::Message;
            },
        }
        self.selected_pod = None;
        self.new_pod_name = String::new();
    }

    /// Merge the outcome of a preview call: captured display text on
    /// success, or a labelled error rendered inline in the preview pane —
    /// never a blocking message, and never a screen change.
    pub fn apply_preview(&mut self, outcome: Result<String, String>)
        requires
            old(self).wf(),
        ensures
            final(self).wf(),
            final(self).state == old(self).state,
            same_lists(*old(self), *final(self)),
            same_selected(*old(self), *final(self)),
            same_mark(*old(self), *final(self)),
            final(self).default_namespace == old(self).default_namespace,
            final(self).new_pod_name == old(self).new_pod_name,
            final(self).message == old(self).message,
            outcome matches Ok(text) ==> final(self).output == text,
            outcome matches Err(e) ==> final(self).output@ == "Error listing pods: "@ + e@,
    {
        match outcome {
            Ok(text) => {
                self.output = text;
            },
            Err(e) => {
                self.output = labeled_message("Error listing pods: ", &e);
            },
        }
    }
}

/// Everything unchanged but the active screen, which becomes `s`.
pub open spec fn only_screen(a: App, b: App, s: AppState) -> bool {
    &&& b.state == s
    &&& same_lists(a, b)
    &&& same_selected(a, b)
    &&& same_texts(a, b)
    &&& same_mark(a, b)
}

/// Navigation on the main menu: the command cursor becomes `c` and the
/// preview debounce policy runs for the new index (clearing the preview
/// and requesting a backend call only on a real change onto the
/// pod-listing entry).
pub open spec fn menu_nav(a: App, b: App, c: Option<usize>, r: Option<Action>) -> bool {
    &&& b.state == a.state
    &&& b.commands.items == a.commands.items
    &&& b.commands.cursor == c
    &&& b.namespaces == a.namespaces
    &&& b.contexts == a.contexts
    &&& b.pods == a.pods
    &&& same_selected(a, b)
    &&& b.default_namespace == a.default_namespace
    &&& b.new_pod_name == a.new_pod_name
    &&& b.message == a.message
    &&& match c {
        Some(i) => {
            &&& b.last_main_menu_index == Some(i)
            &&& (a.last_main_menu_index == Some(i) ==> b.output == a.output)
            &&& (a.last_main_menu_index != Some(i) ==> b.output@ == Seq::<char>::empty())
            &&& (r is Some <==> preview_requested(a.last_main_menu_index, i))
            &&& (r matches Some(act) ==> (act matches Action::PreviewPods { namespace }
                && namespace@ == a.spec_current_namespace()))
        },
        None => b.output == a.output && b.last_main_menu_index == a.last_main_menu_index
            && r is None,
    }
}

/// Dispatch from the main menu: the session is untouched and the command
/// under the cursor determines the requested backend call.
pub open spec fn menu_dispatch(a: App, b: App, r: Option<Action>) -> bool {
    &&& unchanged(a, b)
    &&& match a.commands.cursor {
        Some(i) => if i == 0 {
            r == Some(Action::LoadContexts)
        } else if i == 1 {
            r == Some(Action::LoadNamespaces)
        } else if i == 2 {
            r matches Some(act) && act matches Action::LoadPodsForExec { namespace }
                && namespace@ == a.spec_current_namespace()
        } else if i == 3 {
            r matches Some(act) && act matches Action::LoadPodsForCopy { namespace }
                && namespace@ == a.spec_current_namespace()
        } else {
            r is None
        },
        None => r is None,
    }
}

/// The main-menu transition for one key event.
pub open spec fn main_menu_post(a: App, b: App, key: Key, r: Option<Action>) -> bool {
    match key {
        Key::Up => menu_nav(a, b, up_cursor(a.commands.cursor), r),
        Key::Down => menu_nav(a, b, down_cursor(a.commands.cursor, a.commands.items@.len()), r),
        Key::Char(c) => if c == 'k' {
            menu_nav(a, b, up_cursor(a.commands.cursor), r)
        } else if c == 'j' {
            menu_nav(a, b, down_cursor(a.commands.cursor, a.commands.items@.len()), r)
        } else {
            unchanged(a, b) && r is None
        },
        Key::Right => menu_dispatch(a, b, r),
        Key::Enter => menu_dispatch(a, b, r),
        _ => unchanged(a, b) && r is None,
    }
}

/// Only the namespace list's cursor moved, to `c`.
pub open spec fn ns_nav(a: App, b: App, c: Option<usize>) -> bool {
    &&& b.state == a.state
    &&& b.commands == a.commands
    &&& b.namespaces.items == a.namespaces.items
    &&& b.namespaces.cursor == c
    &&& b.contexts == a.contexts
    &&& b.pods == a.pods
    &&& same_selected(a, b)
    &&& same_texts(a, b)
    &&& same_mark(a, b)
}

/// The namespace under the cursor became the selected namespace and the
/// main menu returned; nothing else changed.
pub open spec fn ns_chosen(a: App, b: App, i: usize) -> bool {
    &&& b.state == AppState::MainMenu
    &&& b.selected_namespace == Some(a.namespaces.items@[i as int])
    &&& b.selected_context == a.selected_context
    &&& b.selected_pod == a.selected_pod
    &&& same_lists(a, b)
    &&& same_texts(a, b)
    &&& same_mark(a, b)
}

/// The namespace-picker transition for one key event; it never requests
/// a backend call.
pub open spec fn namespace_post(a: App, b: App, key: Key) -> bool {
    match key {
        Key::Up => ns_nav(a, b, up_cursor(a.namespaces.cursor)),
        Key::Down => ns_nav(a, b, down_cursor(a.namespaces.cursor, a.namespaces.items@.len())),
        Key::Char(c) => if c == 'k' {
            ns_nav(a, b, up_cursor(a.namespaces.cursor))
        } else if c == 'j' {
            ns_nav(a, b, down_cursor(a.namespaces.cursor, a.namespaces.items@.len()))
        } else {
            unchanged(a, b)
        },
        Key::Enter => match a.namespaces.cursor {
            Some(i) => ns_chosen(a, b, i),
            None => unchanged(a, b),
        },
        Key::Esc => only_screen(a, b, AppState::MainMenu),
        _ => unchanged(a, b),
    }
}

/// Only the context list's cursor moved, to `c`.
pub open spec fn ctx_nav(a: App, b: App, c: Option<usize>) -> bool {
    &&& b.state == a.state
    &&& b.commands == a.commands
    &&& b.namespaces == a.namespaces
    &&& b.contexts.items == a.contexts.items
    &&& b.contexts.cursor == c
    &&& b.pods == a.pods
    &&& same_selected(a, b)
    &&& same_texts(a, b)
    &&& same_mark(a, b)
}

/// The context-picker transition for one key event. Enter over an entry
/// requests the context switch; the state itself changes only once the
/// outcome is merged by `App::switch_context`.
pub open spec fn context_post(a: App, b: App, key: Key, r: Option<Action>) -> bool {
    match key {
        Key::Up => ctx_nav(a, b, up_cursor(a.contexts.cursor)) && r is None,
        Key::Down => ctx_nav(a, b, down_cursor(a.contexts.cursor, a.contexts.items@.len()))
            && r is None,
        Key::Char(c) => if c == 'k' {
            ctx_nav(a, b, up_cursor(a.contexts.cursor)) && r is None
        } else if c == 'j' {
            ctx_nav(a, b, down_cursor(a.contexts.cursor, a.contexts.items@.len())) && r is None
        } else {
            unchanged(a, b) && r is None
        },
        Key::Enter => unchanged(a, b) && match a.contexts.cursor {
            Some(i) => r matches Some(act) && act matches Action::SwitchContext { name }
                && name == a.contexts.items@[i as int],
            None => r is None,
        },
        Key::Esc => only_screen(a, b, AppState::MainMenu) && r is None,
        _ => unchanged(a, b) && r is None,
    }
}

/// Only the pod list's cursor moved, to `c`.
pub open spec fn pod_nav(a: App, b: App, c: Option<usize>) -> bool {
    &&& b.state == a.state
    &&& b.commands == a.commands
    &&& b.namespaces == a.namespaces
    &&& b.contexts == a.contexts
    &&& b.pods.items == a.pods.items
    &&& b.pods.cursor == c
    &&& same_selected(a, b)
    &&& same_texts(a, b)
    &&& same_mark(a, b)
}

/// The exec-pod-picker transition for one key event. Enter over an entry
/// requests the interactive exec; the state itself changes only once the
/// outcome is merged by `App::exec_pod`.
pub open spec fn exec_pod_post(a: App, b: App, key: Key, r: Option<Action>) -> bool {
    match key {
        Key::Up => pod_nav(a, b, up_cursor(a.pods.cursor)) && r is None,
        Key::Down => pod_nav(a, b, down_cursor(a.pods.cursor, a.pods.items@.len())) && r is None,
        Key::Char(c) => if c == 'k' {
            pod_nav(a, b, up_cursor(a.pods.cursor)) && r is None
        } else if c == 'j' {
            pod_nav(a, b, down_cursor(a.pods.cursor, a.pods.items@.len())) && r is None
        } else {
            unchanged(a, b) && r is None
        },
        Key::Enter => unchanged(a, b) && match a.pods.cursor {
            Some(i) => r matches Some(act) && act matches Action::ExecPod { namespace, pod }
                && namespace@ == a.spec_current_namespace() && pod == a.pods.items@[i as int],
            None => r is None,
        },
        Key::Esc => only_screen(a, b, AppState::MainMenu) && r is None,
        _ => unchanged(a, b) && r is None,
    }
}

/// The pod under the cursor became the copy source, the typed name was
/// cleared, and the name-entry screen opened; nothing else changed.
pub open spec fn copy_source_chosen(a: App, b: App, i: usize) -> bool {
    &&& b.state == AppState::CopyPodNameInput
    &&& b.selected_pod == Some(a.pods.items@[i as int])
    &&& b.selected_namespace == a.selected_namespace
    &&& b.selected_context == a.selected_context
    &&& b.new_pod_name@ == Seq::<char>::empty()
    &&& b.default_namespace == a.default_namespace
    &&& b.message == a.message
    &&& b.output == a.output
    &&& same_lists(a, b)
    &&& same_mark(a, b)
}

/// The copy-pod-picker transition for one key event; it never requests a
/// backend call.
pub open spec fn copy_pick_post(a: App, b: App, key: Key) -> bool {
    match key {
        Key::Up => pod_nav(a, b, up_cursor(a.pods.cursor)),
        Key::Down => pod_nav(a, b, down_cursor(a.pods.cursor, a.pods.items@.len())),
        Key::Char(c) => if c == 'k' {
            pod_nav(a, b, up_cursor(a.pods.cursor))
        } else if c == 'j' {
            pod_nav(a, b, down_cursor(a.pods.cursor, a.pods.items@.len()))
        } else {
            unchanged(a, b)
        },
        Key::Enter => match a.pods.cursor {
            Some(i) => copy_source_chosen(a, b, i),
            None => unchanged(a, b),
        },
        Key::Esc => only_screen(a, b, AppState::MainMenu),
        _ => unchanged(a, b),
    }
}

/// Only the typed pod name changed, to `s`.
pub open spec fn typed(a: App, b: App, s: Seq<char>) -> bool {
    &&& b.state == a.state
    &&& same_lists(a, b)
    &&& same_selected(a, b)
    &&& same_mark(a, b)
    &&& b.default_namespace == a.default_namespace
    &&& b.message == a.message
    &&& b.output == a.output
    &&& b.new_pod_name@ == s
}

/// Submitting an empty name is rejected before any backend call: the
/// fixed validation message becomes the message screen and everything
/// else stays untouched.
pub open spec fn empty_name_rejected(a: App, b: App) -> bool {
    &&& b.state == AppState::Message
    &&& b.message@ == "Please enter a new pod name"@
    &&& same_lists(a, b)
    &&& same_selected(a, b)
    &&& same_mark(a, b)
    &&& b.default_namespace == a.default_namespace
    &&& b.new_pod_name == a.new_pod_name
    &&& b.output == a.output
}

/// The name-entry transition for one key event. Submitting a non-empty
/// name over a remembered source pod requests the copy; the state itself
/// changes only once the outcome is merged by `App::copy_pod`.
pub open spec fn copy_name_post(a: App, b: App, key: Key, r: Option<Action>) -> bool {
    match key {
        Key::Enter => if a.new_pod_name@.len() == 0 {
            empty_name_rejected(a, b) && r is None
        } else {
            match a.selected_pod {
                Some(source) => unchanged(a, b) && (r matches Some(act) && act
                    matches Action::CopyPod { namespace, source_pod, new_name }
                    && namespace@ == a.spec_current_namespace() && source_pod == source
                    && new_name == a.new_pod_name),
                None => unchanged(a, b) && r is None,
            }
        },
        Key::Char(c) => typed(a, b, a.new_pod_name@.push(c)) && r is None,
        Key::Backspace => typed(
            a,
            b,
            if a.new_pod_name@.len() == 0 {
                a.new_pod_name@
            } else {
                a.new_pod_name@.drop_last()
            },
        ) && r is None,
        Key::Esc => only_screen(a, b, AppState::PodSelection) && r is None,
        _ => unchanged(a, b) && r is None,
    }
}

/// The whole controller transition: the active screen routes the key, the
/// message and output screens return to the main menu on any key.
pub open spec fn step_post(a: App, b: App, key: Key, r: Option<Action>) -> bool {
    match a.state {
        AppState::MainMenu => main_menu_post(a, b, key, r),
        AppState::NamespaceSelection => namespace_post(a, b, key) && r is None,
        AppState::ContextSelection => context_post(a, b, key, r),
        AppState::ExecPodSelection => exec_pod_post(a, b, key, r),
        AppState::PodSelection => copy_pick_post(a, b, key) && r is None,
        AppState::CopyPodNameInput => copy_name_post(a, b, key, r),
        AppState::Message => only_screen(a, b, AppState::MainMenu) && r is None,
        AppState::ShowOutput => only_screen(a, b, AppState::MainMenu) && r is None,
    }
}

/// One key event on the main menu.
pub fn handle_main_menu(app: &mut App, key: Key) -> (r: Option<Action>)
    requires
        old(app).wf(),
    ensures
        final(app).wf(),
        main_menu_post(*old(app), *final(app), key, r),
{
    match key {
        Key::Up => {
            app.commands.move_up();
            match app.commands.cursor {
                Some(i) => app.on_index_changed(i),
                None => None,
            }
        },
        Key::Down => {
            app.commands.move_down();
            match app.commands.cursor {
                Some(i) => app.on_index_changed(i),
                None => None,
            }
        },
        Key::Char(c) => {
            if c == 'k' {
                app.commands.move_up();
                match app.commands.cursor {
                    Some(i) => app.on_index_changed(i),
                    None => None,
                }
            } else if c == 'j' {
                app.commands.move_down();
                match app.commands.cursor {
                    Some(i) => app.on_index_changed(i),
                    None => None,
                }
            } else {
                None
            }
        },
        Key::Right | Key::Enter => {
            match app.commands.cursor {
                Some(i) => {
                    if i == 0 {
                        Some(Action::LoadContexts)
                    } else if i == 1 {
                        Some(Action::LoadNamespaces)
                    } else if i == 2 {
                        Some(Action::LoadPodsForExec { namespace: app.current_namespace() })
                    } else if i == 3 {
                        Some(Action::LoadPodsForCopy { namespace: app.current_namespace() })
                    } else {
                        None
                    }
                },
                None => None,
            }
        },
        _ => None,
    }
}

/// One key event on the namespace picker.
pub fn handle_namespace_selection(app: &mut App, key: Key)
    requires
        old(app).wf(),
    ensures
        final(app).wf(),
        namespace_post(*old(app), *final(app), key),
{
    match key {
        Key::Up => app.namespaces.move_up(),
        Key::Down => app.namespaces.move_down(),
        Key::Char(c) => {
            if c == 'k' {
                app.namespaces.move_up();
            } else if c == 'j' {
                app.namespaces.move_down();
            }
        },
        Key::Enter => {
            let picked = app.namespaces.select();
            if let Some(ns) = picked {
                app.selected_namespace = Some(ns);
                app.state = AppState::MainMenu;
            }
        },
        Key::Esc => {
            app.state = AppState::MainMenu;
        },
        _ => {},
    }
}

/// One key event on the context picker.
pub fn handle_context_selection(app: &mut App, key: Key) -> (r: Option<Action>)
    requires
        old(app).wf(),
    ensures
        final(app).wf(),
        context_post(*old(app), *final(app), key, r),
{
    match key {
        Key::Up => {
            app.contexts.move_up();
            None
        },
        Key::Down => {
            app.contexts.move_down();
            None
        },
        Key::Char(c) => {
            if c == 'k' {
                app.contexts.move_up();
            } else if c == 'j' {
                app.contexts.move_down();
            }
            None
        },
        Key::Enter => {
            let picked = app.contexts.select();
            match picked {
                Some(name) => Some(Action::SwitchContext { name }),
                None => None,
            }
        },
        Key::Esc => {
            app.state = AppState::MainMenu;
            None
        },
        _ => None,
    }
}

/// One key event on the exec-pod picker.
pub fn handle_exec_pod_selection(app: &mut App, key: Key) -> (r: Option<Action>)
    requires
        old(app).wf(),
    ensures
        final(app).wf(),
        exec_pod_post(*old(app), *final(app), key, r),
{
    match key {
        Key::Up => {
            app.pods.move_up();
            None
        },
        Key::Down => {
            app.pods.move_down();
            None
        },
        Key::Char(c) => {
            if c == 'k' {
                app.pods.move_up();
            } else if c == 'j' {
                app.pods.move_down();
            }
            None
        },
        Key::Enter => {
            let picked = app.pods.select();
            match picked {
                Some(pod) => Some(
                    Action::ExecPod { namespace: app.current_namespace(), pod },
                ),
                None => None,
            }
        },
        Key::Esc => {
            app.state = AppState::MainMenu;
            None
        },
        _ => None,
    }
}

/// One key event on the copy-pod picker.
pub fn handle_copy_pod_selection(app: &mut App, key: Key)
    requires
        old(app).wf(),
    ensures
        final(app).wf(),
        copy_pick_post(*old(app), *final(app), key),
{
    match key {
        Key::Up => app.pods.move_up(),
        Key::Down => app.pods.move_down(),
        Key::Char(c) => {
            if c == 'k' {
                app.pods.move_up();
            } else if c == 'j' {
                app.pods.move_down();
            }
        },
        Key::Enter => {
            let picked = app.pods.select();
            if let Some(pod) = picked {
                app.selected_pod = Some(pod);
                app.new_pod_name = String::new();
                app.state = AppState::CopyPodNameInput;
            }
        },
        Key::Esc => {
            app.state = AppState::MainMenu;
        },
        _ => {},
    }
}

/// One key event on the name-entry screen.
pub fn handle_copy_pod_name(app: &mut App, key: Key) -> (r: Option<Action>)
    requires
        old(app).wf(),
    ensures
        final(app).wf(),
        copy_name_post(*old(app), *final(app), key, r),
{
    match key {
        Key::Enter => {
            if app.new_pod_name.as_str().is_empty() {
                app.message = String::from_str("Please enter a new pod name");
                app.state = AppState::Message;
                None
            } else {
                match &app.selected_pod {
                    Some(source) => Some(
                        Action::CopyPod {
                            namespace: app.current_namespace(),
                            source_pod: source.clone(),
                            new_name: app.new_pod_name.clone(),
                        },
                    ),
                    None => None,
                }
            }
        },
        Key::Char(c) => {
            push_char(&mut app.new_pod_name, c);
            None
        },
        Key::Backspace => {
            pop_char(&mut app.new_pod_name);
            None
        },
        Key::Esc => {
            app.state = AppState::PodSelection;
            None
        },
        _ => None,
    }
}

/// One key event, routed by the active screen. This is the single entry
/// point the event loop drives; the returned action, if any, names the
/// backend call to perform before the next frame.
pub fn step(app: &mut App, key: Key) -> (r: Option<Action>)
    requires
        old(app).wf(),
    ensures
        final(app).wf(),
        step_post(*old(app), *final(app), key, r),
{
    match app.state {
        AppState::MainMenu => handle_main_menu(app, key),
        AppState::NamespaceSelection => {
            handle_namespace_selection(app, key);
            None
        },
        AppState::ContextSelection => handle_context_selection(app, key),
        AppState::ExecPodSelection => handle_exec_pod_selection(app, key),
        AppState::PodSelection => {
            handle_copy_pod_selection(app, key);
            None
        },
        AppState::CopyPodNameInput => handle_copy_pod_name(app, key),
        AppState::Message | AppState::ShowOutput => {
            app.state = AppState::MainMenu;
            None
        },
    }
}

} // verus!
