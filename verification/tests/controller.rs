use kubenav::controller::{step, Action, Key};
use kubenav::session::{App, AppState};

fn fresh() -> App {
    App::new(None)
}

fn names(list: &[&str]) -> Vec<String> {
    list.iter().map(|s| s.to_string()).collect()
}

#[test]
fn new_app_starts_on_main_menu() {
    let app = fresh();
    assert_eq!(app.state, AppState::MainMenu);
    assert_eq!(
        app.commands.items,
        names(&["Choose Context", "Choose Namespace", "Pods", "Copy Pod"])
    );
    assert_eq!(app.commands.cursor, Some(0));
    assert_eq!(app.selected_namespace, None);
    assert_eq!(app.selected_pod, None);
    assert_eq!(app.default_namespace, "default");
    assert!(app.is_well_formed());
}

#[test]
fn new_app_keeps_seeded_context() {
    let app = App::new(Some("minikube".to_string()));
    assert_eq!(app.selected_context, Some("minikube".to_string()));
}

#[test]
fn current_namespace_falls_back_to_default() {
    let mut app = fresh();
    assert_eq!(app.current_namespace(), "default");
    app.selected_namespace = Some("kube-system".to_string());
    assert_eq!(app.current_namespace(), "kube-system");
}

#[test]
fn preview_requested_once_for_repeated_index() {
    let mut app = fresh();
    let first = app.on_index_changed(2);
    assert_eq!(
        first,
        Some(Action::PreviewPods { namespace: "default".to_string() })
    );
    let second = app.on_index_changed(2);
    assert_eq!(second, None);
}

#[test]
fn preview_not_requested_for_other_indices() {
    let mut app = fresh();
    assert_eq!(app.on_index_changed(1), None);
    assert_eq!(app.on_index_changed(3), None);
}

#[test]
fn preview_clears_output_on_index_change() {
    let mut app = fresh();
    app.output = "stale".to_string();
    assert_eq!(app.on_index_changed(1), None);
    assert_eq!(app.output, "");
}

#[test]
fn preview_failure_stays_inline() {
    let mut app = fresh();
    app.apply_preview(Err("no cluster".to_string()));
    assert_eq!(app.state, AppState::MainMenu);
    assert_eq!(app.output, "Error listing pods: no cluster");
    assert_eq!(app.message, "");
}

#[test]
fn preview_success_fills_output() {
    let mut app = fresh();
    app.apply_preview(Ok("pod-a pod-b".to_string()));
    assert_eq!(app.output, "pod-a pod-b");
    assert_eq!(app.state, AppState::MainMenu);
}

#[test]
fn menu_navigation_runs_preview_policy() {
    let mut app = fresh();
    assert_eq!(step(&mut app, Key::Down), None);
    assert_eq!(app.commands.cursor, Some(1));
    let act = step(&mut app, Key::Down);
    assert_eq!(app.commands.cursor, Some(2));
    assert_eq!(
        act,
        Some(Action::PreviewPods { namespace: "default".to_string() })
    );
    assert_eq!(step(&mut app, Key::Down), None);
    assert_eq!(app.commands.cursor, Some(3));
    assert_eq!(step(&mut app, Key::Down), None);
    assert_eq!(app.commands.cursor, Some(0));
}

#[test]
fn menu_up_saturates_at_first_command() {
    let mut app = fresh();
    assert_eq!(step(&mut app, Key::Up), None);
    assert_eq!(app.commands.cursor, Some(0));
}

#[test]
fn menu_dispatch_by_command_index() {
    let mut app = fresh();
    assert_eq!(step(&mut app, Key::Enter), Some(Action::LoadContexts));
    assert_eq!(app.state, AppState::MainMenu);

    let mut app = fresh();
    app.commands.move_down();
    assert_eq!(step(&mut app, Key::Enter), Some(Action::LoadNamespaces));

    let mut app = fresh();
    app.selected_namespace = Some("team".to_string());
    app.commands.move_down();
    app.commands.move_down();
    assert_eq!(
        step(&mut app, Key::Right),
        Some(Action::LoadPodsForExec { namespace: "team".to_string() })
    );

    let mut app = fresh();
    app.commands.move_down();
    app.commands.move_down();
    app.commands.move_down();
    assert_eq!(
        step(&mut app, Key::Enter),
        Some(Action::LoadPodsForCopy { namespace: "default".to_string() })
    );
}

#[test]
fn namespaces_load_then_pick() {
    // Main menu, cursor on the namespace command, Enter, successful fetch.
    let mut app = fresh();
    assert_eq!(step(&mut app, Key::Down), None);
    assert_eq!(app.commands.cursor, Some(1));
    assert_eq!(step(&mut app, Key::Enter), Some(Action::LoadNamespaces));
    app.load_namespaces(Ok(names(&["default", "kube-system"])));
    assert_eq!(app.state, AppState::NamespaceSelection);
    assert_eq!(app.namespaces.items.len(), 2);
    assert_eq!(app.namespaces.cursor, Some(0));

    // Cursor to the second namespace, Enter selects it.
    assert_eq!(step(&mut app, Key::Down), None);
    assert_eq!(app.namespaces.cursor, Some(1));
    assert_eq!(step(&mut app, Key::Enter), None);
    assert_eq!(app.selected_namespace, Some("kube-system".to_string()));
    assert_eq!(app.state, AppState::MainMenu);
}

#[test]
fn vim_keys_navigate_pickers() {
    let mut app = fresh();
    app.load_namespaces(Ok(names(&["a", "b", "c"])));
    assert_eq!(step(&mut app, Key::Char('j')), None);
    assert_eq!(app.namespaces.cursor, Some(1));
    assert_eq!(step(&mut app, Key::Char('k')), None);
    assert_eq!(app.namespaces.cursor, Some(0));
}

#[test]
fn escape_returns_to_main_menu_from_pickers() {
    let mut app = fresh();
    app.load_namespaces(Ok(names(&["a"])));
    assert_eq!(app.state, AppState::NamespaceSelection);
    assert_eq!(step(&mut app, Key::Esc), None);
    assert_eq!(app.state, AppState::MainMenu);

    let mut app = fresh();
    app.load_pods(false, Ok(names(&["p"])));
    assert_eq!(app.state, AppState::ExecPodSelection);
    assert_eq!(step(&mut app, Key::Esc), None);
    assert_eq!(app.state, AppState::MainMenu);
}

#[test]
fn context_pick_requests_switch() {
    let mut app = fresh();
    app.load_contexts(Ok(names(&["dev", "prod"])));
    assert_eq!(app.state, AppState::ContextSelection);
    assert_eq!(step(&mut app, Key::Down), None);
    assert_eq!(
        step(&mut app, Key::Enter),
        Some(Action::SwitchContext { name: "prod".to_string() })
    );
    // The screen waits for the outcome.
    assert_eq!(app.state, AppState::ContextSelection);
    app.switch_context("prod".to_string(), Ok(()));
    assert_eq!(app.selected_context, Some("prod".to_string()));
    assert_eq!(app.state, AppState::MainMenu);
}

#[test]
fn exec_pick_requests_exec_and_shows_output() {
    let mut app = fresh();
    app.load_pods(false, Ok(names(&["worker-1", "worker-2"])));
    assert_eq!(
        step(&mut app, Key::Enter),
        Some(Action::ExecPod {
            namespace: "default".to_string(),
            pod: "worker-1".to_string(),
        })
    );
    app.exec_pod(Ok("shell closed".to_string()));
    assert_eq!(app.state, AppState::ShowOutput);
    assert_eq!(app.output, "shell closed");
}

#[test]
fn copy_flow_end_to_end() {
    let mut app = fresh();
    app.load_pods(true, Ok(names(&["worker-1"])));
    assert_eq!(app.state, AppState::PodSelection);

    // Enter picks the source pod and opens the name entry.
    assert_eq!(step(&mut app, Key::Enter), None);
    assert_eq!(app.state, AppState::CopyPodNameInput);
    assert_eq!(app.selected_pod, Some("worker-1".to_string()));
    assert_eq!(app.new_pod_name, "");

    // Typing builds the new name.
    assert_eq!(step(&mut app, Key::Char('w')), None);
    assert_eq!(step(&mut app, Key::Char('2')), None);
    assert_eq!(app.new_pod_name, "w2");

    // Enter requests the copy; a successful outcome shows the output and
    // clears the source pod and the typed name.
    assert_eq!(
        step(&mut app, Key::Enter),
        Some(Action::CopyPod {
            namespace: "default".to_string(),
            source_pod: "worker-1".to_string(),
            new_name: "w2".to_string(),
        })
    );
    app.copy_pod(Ok("copied".to_string()));
    assert_eq!(app.state, AppState::ShowOutput);
    assert_eq!(app.selected_pod, None);
    assert_eq!(app.new_pod_name, "");
    assert_eq!(app.output, "copied");
}

#[test]
fn empty_new_pod_name_is_rejected_before_any_call() {
    let mut app = fresh();
    app.load_pods(true, Ok(names(&["worker-1"])));
    step(&mut app, Key::Enter);
    assert_eq!(app.state, AppState::CopyPodNameInput);
    assert_eq!(app.new_pod_name, "");
    let action = step(&mut app, Key::Enter);
    assert_eq!(action, None);
    assert_eq!(app.state, AppState::Message);
    assert_eq!(app.message, "Please enter a new pod name");
}

#[test]
fn backspace_edits_and_escape_leaves_name_entry() {
    let mut app = fresh();
    app.load_pods(true, Ok(names(&["worker-1"])));
    step(&mut app, Key::Enter);
    step(&mut app, Key::Char('a'));
    step(&mut app, Key::Char('b'));
    assert_eq!(step(&mut app, Key::Backspace), None);
    assert_eq!(app.new_pod_name, "a");
    step(&mut app, Key::Backspace);
    step(&mut app, Key::Backspace);
    assert_eq!(app.new_pod_name, "");
    assert_eq!(step(&mut app, Key::Esc), None);
    assert_eq!(app.state, AppState::PodSelection);
}

#[test]
fn message_and_output_screens_return_to_main_menu() {
    let mut app = fresh();
    app.state = AppState::Message;
    assert_eq!(step(&mut app, Key::Char('x')), None);
    assert_eq!(app.state, AppState::MainMenu);

    app.state = AppState::ShowOutput;
    assert_eq!(step(&mut app, Key::Enter), None);
    assert_eq!(app.state, AppState::MainMenu);
}

fn seeded() -> App {
    let mut app = App::new(Some("ctx-a".to_string()));
    app.selected_namespace = Some("ns-a".to_string());
    app
}

#[test]
fn load_contexts_failure_escalates_to_message() {
    let mut app = seeded();
    app.load_contexts(Err("boom".to_string()));
    assert_eq!(app.state, AppState::Message);
    assert_eq!(app.message, "Error loading contexts: boom");
    assert_eq!(app.selected_namespace, Some("ns-a".to_string()));
    assert_eq!(app.selected_context, Some("ctx-a".to_string()));
    assert!(app.contexts.items.is_empty());
}

#[test]
fn load_namespaces_failure_escalates_to_message() {
    let mut app = seeded();
    app.load_namespaces(Err("boom".to_string()));
    assert_eq!(app.state, AppState::Message);
    assert_eq!(app.message, "Error loading namespaces: boom");
    assert_eq!(app.selected_namespace, Some("ns-a".to_string()));
    assert_eq!(app.selected_context, Some("ctx-a".to_string()));
}

#[test]
fn load_pods_failure_escalates_to_message() {
    let mut app = seeded();
    app.load_pods(false, Err("boom".to_string()));
    assert_eq!(app.state, AppState::Message);
    assert_eq!(app.message, "Error loading pods: boom");

    let mut app = seeded();
    app.load_pods(true, Err("boom".to_string()));
    assert_eq!(app.state, AppState::Message);
    assert_eq!(app.message, "Error loading pods: boom");
    assert_eq!(app.selected_namespace, Some("ns-a".to_string()));
}

#[test]
fn switch_context_failure_keeps_old_context() {
    let mut app = seeded();
    app.switch_context("ctx-b".to_string(), Err("denied".to_string()));
    assert_eq!(app.state, AppState::Message);
    assert_eq!(app.message, "Error switching context: denied");
    assert_eq!(app.selected_context, Some("ctx-a".to_string()));
}

#[test]
fn exec_pod_failure_escalates_to_message() {
    let mut app = seeded();
    app.output = "old".to_string();
    app.exec_pod(Err("boom".to_string()));
    assert_eq!(app.state, AppState::Message);
    assert_eq!(app.message, "Error exec into pod: boom");
    assert_eq!(app.output, "old");
    assert_eq!(app.selected_namespace, Some("ns-a".to_string()));
}

#[test]
fn copy_pod_failure_escalates_and_clears() {
    let mut app = seeded();
    app.selected_pod = Some("worker-1".to_string());
    app.new_pod_name = "w2".to_string();
    app.copy_pod(Err("boom".to_string()));
    assert_eq!(app.state, AppState::Message);
    assert_eq!(app.message, "Error copying pod: boom");
    assert_eq!(app.selected_pod, None);
    assert_eq!(app.new_pod_name, "");
    assert_eq!(app.selected_namespace, Some("ns-a".to_string()));
}

#[test]
fn empty_listing_leaves_picker_inert() {
    let mut app = fresh();
    app.load_pods(false, Ok(Vec::new()));
    assert_eq!(app.state, AppState::ExecPodSelection);
    assert_eq!(app.pods.cursor, None);
    assert_eq!(step(&mut app, Key::Enter), None);
    assert_eq!(app.state, AppState::ExecPodSelection);
    assert_eq!(step(&mut app, Key::Down), None);
    assert_eq!(app.pods.cursor, None);
}
