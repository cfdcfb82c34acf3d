use local_control::notebook::{JupyterNotebookEvent, JupyterNotebookView, PaneEvent};
use local_control::view_context::{AppContext, Effect, EntityId, TuiViewContext, WindowId};

#[test]
fn notebook_lifecycle_emits_and_notifies() {
    let mut app: AppContext<JupyterNotebookEvent, (), ()> = AppContext::new();
    let view_id = EntityId(40);
    {
        let mut ctx = TuiViewContext::new(&mut app, WindowId(1), view_id);
        let mut view = JupyterNotebookView::new("{}", Some("/tmp/a.ipynb".to_owned()), &mut ctx);
        assert!(!view.is_dirty());
        assert_eq!(view.title(), "/tmp/a.ipynb");
        assert_eq!(view.path(), Some(&"/tmp/a.ipynb".to_owned()));
        view.request_save(&mut ctx);
        view.set_content("{\"cells\":[]}", &mut ctx);
        assert_eq!(view.to_json(), "{\"cells\":[]}");
        view.mark_saved(&mut ctx);
        view.focus_contents(&mut ctx);
        view.close(&mut ctx);
        assert_eq!(view.pane_configuration().id, EntityId(0));
    }
    assert_eq!(
        app.pending_effects(),
        &[
            Effect::Event {
                entity_id: view_id,
                payload: JupyterNotebookEvent::SaveRequested { json: "{}".to_owned() },
            },
            Effect::ViewNotification { window_id: WindowId(1), view_id },
            Effect::ViewNotification { window_id: WindowId(1), view_id },
            Effect::Event { entity_id: view_id, payload: JupyterNotebookEvent::Focused },
            Effect::Event { entity_id: view_id, payload: JupyterNotebookEvent::Pane(PaneEvent::Close) },
        ]
    );
}

#[test]
fn untitled_notebooks_and_pane_events() {
    let mut app: AppContext<JupyterNotebookEvent, (), ()> = AppContext::new();
    let mut ctx = TuiViewContext::new(&mut app, WindowId(1), EntityId(1));
    let view = JupyterNotebookView::new("x", None, &mut ctx);
    assert_eq!(view.title(), "Untitled");
    assert_eq!(view.path(), None);
    assert_eq!(
        JupyterNotebookEvent::from(PaneEvent::ToggleMaximized),
        JupyterNotebookEvent::Pane(PaneEvent::ToggleMaximized)
    );
}
