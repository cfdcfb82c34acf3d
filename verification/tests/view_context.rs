use local_control::view_context::{
    AppContext, Effect, EntityId, ModelHandle, TuiViewContext, TuiViewHandle, WindowId,
};

#[test]
fn view_operations_queue_effects_in_call_order() {
    let mut app: AppContext<&str, u8, u32> = AppContext::new();
    {
        let mut ctx = TuiViewContext::new(&mut app, WindowId(1), EntityId(10));
        ctx.emit("changed");
        ctx.notify();
        ctx.focus_self();
        ctx.dispatch_typed_action_deferred(7);
        ctx.focus(&TuiViewHandle { window_id: WindowId(2), view_id: EntityId(20) });
    }
    assert_eq!(
        app.pending_effects(),
        &[
            Effect::Event { entity_id: EntityId(10), payload: "changed" },
            Effect::ViewNotification { window_id: WindowId(1), view_id: EntityId(10) },
            Effect::Focus { window_id: WindowId(1), view_id: EntityId(10) },
            Effect::TypedAction { window_id: WindowId(1), view_id: EntityId(10), action: 7 },
            Effect::Focus { window_id: WindowId(2), view_id: EntityId(20) },
        ]
    );
}

#[test]
fn subscriptions_and_observations_belong_to_the_view() {
    let mut app: AppContext<(), (), u32> = AppContext::new();
    {
        let mut ctx = TuiViewContext::new(&mut app, WindowId(3), EntityId(30));
        let model = ctx.add_model();
        ctx.subscribe_to_model(&model, 1);
        ctx.subscribe_to_view(&TuiViewHandle { window_id: WindowId(3), view_id: EntityId(31) }, 2);
        ctx.observe(&model, 3);
        assert_eq!(ctx.handle().view_id, EntityId(30));
        assert_eq!(ctx.window_id(), WindowId(3));
        assert_eq!(ctx.view_id(), EntityId(30));
    }
    let subscriptions = app.subscriptions();
    assert_eq!(subscriptions.len(), 2);
    assert_eq!(subscriptions[0].0, app.models()[0]);
    assert_eq!(subscriptions[0].1.view_id, EntityId(30));
    assert_eq!(subscriptions[0].1.window_id, WindowId(3));
    assert_eq!(subscriptions[0].1.callback, 1);
    assert_eq!(subscriptions[1].0, EntityId(31));
    assert_eq!(app.observations()[0].1.callback, 3);
    assert!(app.pending_effects().is_empty());
}

#[test]
fn added_models_get_fresh_ids() {
    let mut app: AppContext<(), (), ()> = AppContext::new();
    let (first, second) = {
        let mut ctx = TuiViewContext::new(&mut app, WindowId(0), EntityId(0));
        let first: ModelHandle = ctx.add_model();
        let second: ModelHandle = ctx.add_model();
        (first, second)
    };
    assert_ne!(first.id, second.id);
    assert_eq!(app.models(), &[first.id, second.id]);
}

#[test]
fn focus_is_tracked_per_window() {
    let mut app: AppContext<(), (), ()> = AppContext::new();
    app.set_focused_view(WindowId(1), EntityId(5));
    app.set_focused_view(WindowId(2), EntityId(6));
    app.set_focused_view(WindowId(1), EntityId(7));
    assert!(!app.check_view_focused(WindowId(1), &EntityId(5)));
    assert!(app.check_view_focused(WindowId(1), &EntityId(7)));
    assert!(app.check_view_focused(WindowId(2), &EntityId(6)));
    let ctx = TuiViewContext::new(&mut app, WindowId(1), EntityId(7));
    assert!(ctx.is_self_focused());
}

#[test]
fn events_reach_each_subscriber_once_until_the_model_is_dropped() {
    let mut app: AppContext<(), (), u32> = AppContext::new();
    let (first, second) = {
        let mut ctx = TuiViewContext::new(&mut app, WindowId(1), EntityId(100));
        let first = ctx.add_model();
        let second = ctx.add_model();
        ctx.subscribe_to_model(&first, 1);
        ctx.subscribe_to_model(&second, 2);
        ctx.subscribe_to_model(&first, 3);
        ctx.observe(&first, 4);
        (first, second)
    };
    assert_eq!(app.subscribers_of(first.id), vec![0, 2]);
    assert_eq!(app.subscribers_of(second.id), vec![1]);
    app.drop_model(first.id);
    assert_eq!(app.subscribers_of(first.id), Vec::<usize>::new());
    assert_eq!(app.subscribers_of(second.id), vec![0]);
    assert_eq!(app.models(), &[second.id]);
    assert!(app.observations().is_empty());
    assert_eq!(app.subscriptions()[0].1.callback, 2);
}
