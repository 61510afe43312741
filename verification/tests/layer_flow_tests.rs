use lsp_daemon::universal_cache::layer::{layer_step, LayerAction, LayerEvent, LayerState};
use lsp_daemon::universal_cache::policy::PolicyRegistry;
use lsp_daemon::universal_cache::LspMethod;

fn run(policies: &PolicyRegistry, events: &[LayerEvent]) -> (LayerState, Vec<LayerAction>) {
    let mut state = LayerState::Idle;
    let mut actions = Vec::new();
    for e in events {
        let (s, a) = layer_step(policies, state, *e);
        state = s;
        actions.push(a);
    }
    (state, actions)
}

fn request(method: Option<LspMethod>) -> LayerEvent {
    LayerEvent::Request { method, params_ok: true }
}

#[test]
fn hit_is_answered_from_cache() {
    let p = PolicyRegistry::new();
    let (state, actions) = run(
        &p,
        &[
            request(Some(LspMethod::Hover)),
            LayerEvent::UnsavedChecked { unsaved: false },
            LayerEvent::KeyBuilt { ok: true },
            LayerEvent::CacheLooked { usable_hit: true },
        ],
    );
    assert_eq!(state, LayerState::Done);
    assert_eq!(
        actions,
        vec![
            LayerAction::CheckUnsaved,
            LayerAction::BuildKey { method: LspMethod::Hover },
            LayerAction::LookUp { method: LspMethod::Hover },
            LayerAction::ReturnCached,
        ]
    );
}

#[test]
fn miss_calls_upstream_once_and_stores() {
    let p = PolicyRegistry::new();
    let (state, actions) = run(
        &p,
        &[
            request(Some(LspMethod::Definition)),
            LayerEvent::UnsavedChecked { unsaved: false },
            LayerEvent::KeyBuilt { ok: true },
            LayerEvent::CacheLooked { usable_hit: false },
            LayerEvent::UpstreamAnswered { cacheable: true },
            LayerEvent::Stored,
        ],
    );
    assert_eq!(state, LayerState::Done);
    assert_eq!(
        actions[3..].to_vec(),
        vec![
            LayerAction::CallUpstream,
            LayerAction::Store { method: LspMethod::Definition },
            LayerAction::ReturnUpstream,
        ]
    );
}

#[test]
fn error_answer_is_not_stored() {
    let p = PolicyRegistry::new();
    let (_, actions) = run(
        &p,
        &[
            request(Some(LspMethod::Definition)),
            LayerEvent::UnsavedChecked { unsaved: false },
            LayerEvent::KeyBuilt { ok: true },
            LayerEvent::CacheLooked { usable_hit: false },
            LayerEvent::UpstreamAnswered { cacheable: false },
        ],
    );
    assert_eq!(actions.last(), Some(&LayerAction::ReturnUpstream));
    assert!(!actions.iter().any(|a| matches!(a, LayerAction::Store { .. })));
}

#[test]
fn pass_through_cases() {
    let mut p = PolicyRegistry::new();
    // No cacheable method
    assert_eq!(
        layer_step(&p, LayerState::Idle, request(None)),
        (LayerState::AwaitingUpstream { store_as: None }, LayerAction::CallUpstream)
    );
    // Parameters that cannot be read
    assert_eq!(
        layer_step(
            &p,
            LayerState::Idle,
            LayerEvent::Request { method: Some(LspMethod::Hover), params_ok: false }
        ),
        (LayerState::AwaitingUpstream { store_as: None }, LayerAction::CallUpstream)
    );
    // Unsaved changes
    let (_, actions) = run(
        &p,
        &[request(Some(LspMethod::Hover)), LayerEvent::UnsavedChecked { unsaved: true }],
    );
    assert_eq!(actions[1], LayerAction::CallUpstream);
    // Key that cannot be built: no lookup, and the answer is not stored
    let (_, actions) = run(
        &p,
        &[
            request(Some(LspMethod::Hover)),
            LayerEvent::UnsavedChecked { unsaved: false },
            LayerEvent::KeyBuilt { ok: false },
            LayerEvent::UpstreamAnswered { cacheable: true },
        ],
    );
    assert_eq!(actions[2], LayerAction::CallUpstream);
    assert_eq!(actions[3], LayerAction::ReturnUpstream);
    // Caching disabled for the method
    p.set_enabled(LspMethod::Hover, false);
    assert_eq!(
        layer_step(&p, LayerState::Idle, request(Some(LspMethod::Hover))).1,
        LayerAction::CallUpstream
    );
}

#[test]
fn out_of_place_events_are_ignored() {
    let p = PolicyRegistry::new();
    assert_eq!(
        layer_step(&p, LayerState::Done, LayerEvent::UpstreamAnswered { cacheable: true }),
        (LayerState::Done, LayerAction::Ignore)
    );
    assert_eq!(
        layer_step(&p, LayerState::Idle, LayerEvent::Stored),
        (LayerState::Idle, LayerAction::Ignore)
    );
}
