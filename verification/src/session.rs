//! The session state: the active screen, the four selection lists, the
//! remembered selections, the free-text input buffer, and the last message
//! and captured output. It is created once, then mutated only by the
//! controller in response to input events.

use vstd::prelude::*;
use crate::selection::SelectionList;

verus! {

/// The number of entries on the main command menu.
pub const MAIN_MENU_LEN: usize = 4;

/// The main-menu index of the pod-listing entry, the only entry with an
/// inline preview.
pub const PODS_PREVIEW_INDEX: usize = 2;

/// The active interaction mode. Exactly one screen is active at a time;
/// it is the sole router for input handling and rendering.
#[derive(Clone, Copy, PartialEq, Eq, Structural, Debug)]
pub enum AppState {
    MainMenu,
    NamespaceSelection,
    ContextSelection,
    ExecPodSelection,
    PodSelection,
    CopyPodNameInput,
    Message,
    ShowOutput,
}

/// The whole session state. The pod list is shared by the exec-selection
/// and copy-selection screens and repopulated on entry to either.
pub struct App {
    pub state: AppState,

    pub commands: SelectionList,
    pub namespaces: SelectionList,
    pub contexts: SelectionList,
    pub pods: SelectionList,

    pub selected_namespace: Option<String>,
    pub selected_context: Option<String>,
    pub selected_pod: Option<String>,

    pub default_namespace: String,

    pub new_pod_name: String,

    pub message: String,
    pub output: String,

    pub last_main_menu_index: Option<usize>,
}

impl App {
    /// Every list is well formed, and the command menu has its fixed
    /// number of entries.
    pub open spec fn wf(&self) -> bool {
        &&& self.commands.wf()
        &&& self.namespaces.wf()
        &&& self.contexts.wf()
        &&& self.pods.wf()
        &&& self.commands.items@.len() == MAIN_MENU_LEN
    }

    /// The namespace that backend calls run against: the selected one, or
    /// the fixed default when none has been chosen.
    pub open spec fn spec_current_namespace(&self) -> Seq<char> {
        match self.selected_namespace {
            Some(ns) => ns@,
            None => self.default_namespace@,
        }
    }

    /// A fresh session on the main menu, with the command menu populated,
    /// every other list empty, and the context seeded from a best-effort
    /// startup query (absence is not an error).
    pub fn new(default_context: Option<String>) -> (r: App)
        ensures
            r.wf(),
            r.state == AppState::MainMenu,
            r.commands.items@.len() == MAIN_MENU_LEN,
            r.commands.cursor == Some(0usize),
            r.commands.items@[0]@ == "Choose Context"@,
            r.commands.items@[1]@ == "Choose Namespace"@,
            r.commands.items@[2]@ == "Pods"@,
            r.commands.items@[3]@ == "Copy Pod"@,
            r.namespaces.items@.len() == 0 && r.namespaces.cursor is None,
            r.contexts.items@.len() == 0 && r.contexts.cursor is None,
            r.pods.items@.len() == 0 && r.pods.cursor is None,
            r.selected_namespace is None,
            r.selected_context == default_context,
            r.selected_pod is None,
            r.default_namespace@ == "default"@,
            r.new_pod_name@ == Seq::<char>::empty(),
            r.message@ == Seq::<char>::empty(),
            r.output@ == Seq::<char>::empty(),
            r.last_main_menu_index is None,
    {
        let mut command_items: Vec<String> = Vec::new();
        command_items.push(String::from_str("Choose Context"));
        command_items.push(String::from_str("Choose Namespace"));
        command_items.push(String::from_str("Pods"));
        command_items.push(String::from_str("Copy Pod"));
        let commands = SelectionList { items: command_items, cursor: Some(0) };

        App {
            state: AppState::MainMenu,
            commands,
            namespaces: SelectionList::new(),
            contexts: SelectionList::new(),
            pods: SelectionList::new(),
            selected_namespace: None,
            selected_context: default_context,
            selected_pod: None,
            default_namespace: String::from_str("default"),
            new_pod_name: String::new(),
            message: String::new(),
            output: String::new(),
            last_main_menu_index: None,
        }
    }

    /// The namespace that backend calls run against (see
    /// `spec_current_namespace`).
    pub fn current_namespace(&self) -> (r: String)
        ensures
            r@ == self.spec_current_namespace(),
    {
        match &self.selected_namespace {
            Some(ns) => ns.clone(),
            None => self.default_namespace.clone(),
        }
    }

    /// Runtime check of `wf`, for unverified callers that must establish
    /// it before calling into the controller.
    pub fn is_well_formed(&self) -> (r: bool)
        ensures
            r == self.wf(),
    {
        self.commands.check_wf() && self.namespaces.check_wf() && self.contexts.check_wf()
            && self.pods.check_wf() && self.commands.items.len() == MAIN_MENU_LEN
    }
}

/// The four selection lists are unchanged between `a` and `b`.
pub open spec fn same_lists(a: App, b: App) -> bool {
    &&& b.commands == a.commands
    &&& b.namespaces == a.namespaces
    &&& b.contexts == a.contexts
    &&& b.pods == a.pods
}

/// The three remembered selections are unchanged between `a` and `b`.
pub open spec fn same_selected(a: App, b: App) -> bool {
    &&& b.selected_namespace == a.selected_namespace
    &&& b.selected_context == a.selected_context
    &&& b.selected_pod == a.selected_pod
}

/// The default namespace, input buffer, message and output are unchanged
/// between `a` and `b`.
pub open spec fn same_texts(a: App, b: App) -> bool {
    &&& b.default_namespace == a.default_namespace
    &&& b.new_pod_name == a.new_pod_name
    &&& b.message == a.message
    &&& b.output == a.output
}

/// The debounce mark is unchanged between `a` and `b`.
pub open spec fn same_mark(a: App, b: App) -> bool {
    b.last_main_menu_index == a.last_main_menu_index
}

/// Nothing in the session state changed between `a` and `b`.
pub open spec fn unchanged(a: App, b: App) -> bool {
    &&& b.state == a.state
    &&& same_lists(a, b)
    &&& same_selected(a, b)
    &&& same_texts(a, b)
    &&& same_mark(a, b)
}

} // verus!
