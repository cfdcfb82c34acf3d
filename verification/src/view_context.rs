use vstd::prelude::*;

verus! {

/// Identity of a window.
#[derive(Clone, Copy, Debug, PartialEq, Eq, Hash, Structural)]
pub struct WindowId(pub u64);

/// Identity of a view or a model.
#[derive(Clone, Copy, Debug, PartialEq, Eq, Hash, Structural)]
pub struct EntityId(pub u64);

/// Work that a view context queues for the application to carry out when it flushes its
/// effects, in the order it was queued.
#[derive(Clone, Debug, PartialEq, Eq)]
pub enum Effect<Ev, Ac> {
    Focus { window_id: WindowId, view_id: EntityId },
    Event { entity_id: EntityId, payload: Ev },
    ViewNotification { window_id: WindowId, view_id: EntityId },
    TypedAction { window_id: WindowId, view_id: EntityId, action: Ac },
}

/// A view's registration for the events of an emitter; `callback` runs on each event.
#[derive(Clone, Debug, PartialEq, Eq)]
pub struct Subscription<Cb> {
    pub window_id: WindowId,
    pub view_id: EntityId,
    pub callback: Cb,
}

/// A view's registration for the notifications of an observed model.
#[derive(Clone, Debug, PartialEq, Eq)]
pub struct Observation<Cb> {
    pub window_id: WindowId,
    pub view_id: EntityId,
    pub callback: Cb,
}

/// A handle on a model.
#[derive(Clone, Copy, Debug, PartialEq, Eq, Hash, Structural)]
pub struct ModelHandle {
    pub id: EntityId,
}

/// A handle on a view in a window.
#[derive(Clone, Copy, Debug, PartialEq, Eq, Hash, Structural)]
pub struct TuiViewHandle {
    pub window_id: WindowId,
    pub view_id: EntityId,
}

/// A handle on a view that does not keep it alive.
#[derive(Clone, Copy, Debug, PartialEq, Eq, Hash, Structural)]
pub struct WeakTuiViewHandle {
    pub view_id: EntityId,
}

/// The application state that view contexts act on, as sequences.
pub struct AppContextView<Ev, Ac, Cb> {
    pub effects: Seq<Effect<Ev, Ac>>,
    pub subscriptions: Seq<(EntityId, Subscription<Cb>)>,
    pub observations: Seq<(EntityId, Observation<Cb>)>,
    pub focused: Seq<(WindowId, EntityId)>,
    pub models: Seq<EntityId>,
    pub next_entity_id: u64,
}

/// The shared application context: the queue of pending effects, the subscriptions and
/// observations that views registered, each window's focused view, and the models.
pub struct AppContext<Ev, Ac, Cb> {
    pending_effects: Vec<Effect<Ev, Ac>>,
    subscriptions: Vec<(EntityId, Subscription<Cb>)>,
    observations: Vec<(EntityId, Observation<Cb>)>,
    focused_views: Vec<(WindowId, EntityId)>,
    models: Vec<EntityId>,
    next_entity_id: u64,
}

impl<Ev, Ac, Cb> View for AppContext<Ev, Ac, Cb> {
    type V = AppContextView<Ev, Ac, Cb>;

    closed spec fn view(&self) -> AppContextView<Ev, Ac, Cb> {
        AppContextView {
            effects: self.pending_effects@,
            subscriptions: self.subscriptions@,
            observations: self.observations@,
            focused: self.focused_views@,
            models: self.models@,
            next_entity_id: self.next_entity_id,
        }
    }
}

/// Every model id was handed out before the next one: ids never repeat.
pub open spec fn models_below_next_id<Ev, Ac, Cb>(app: AppContextView<Ev, Ac, Cb>) -> bool {
    forall|i: int| 0 <= i < app.models.len() ==> (#[trigger] app.models[i]).0 < app.next_entity_id
}

/// `view_id` is the focused view of `window_id`.
pub open spec fn is_focused<Ev, Ac, Cb>(app: AppContextView<Ev, Ac, Cb>, window_id: WindowId, view_id: EntityId) -> bool {
    app.focused.contains((window_id, view_id))
}

/// Focus entries of windows other than `window_id`.
pub open spec fn focus_of_other_window(window_id: WindowId) -> spec_fn((WindowId, EntityId)) -> bool {
    |entry: (WindowId, EntityId)| entry.0 != window_id
}

/// After a view takes the focus of its window it is that window's focused view, and no
/// other view of the window is.
pub proof fn lemma_focus_is_exclusive_per_window(
    focused: Seq<(WindowId, EntityId)>,
    window_id: WindowId,
    view_id: EntityId,
    other_view: EntityId,
)
    requires
        other_view != view_id,
    ensures
        focused.filter(focus_of_other_window(window_id)).push((window_id, view_id)).contains((window_id, view_id)),
        !focused.filter(focus_of_other_window(window_id)).push((window_id, view_id)).contains((window_id, other_view)),
{
    let kept = focused.filter(focus_of_other_window(window_id));
    let after = kept.push((window_id, view_id));
    assert(after[kept.len() as int] == (window_id, view_id));
    if after.contains((window_id, other_view)) {
        let k = choose|k: int| 0 <= k < after.len() && after[k] == (window_id, other_view);
        assert(k < kept.len());
        assert(kept.contains((window_id, other_view)));
        focused.lemma_filter_contains_rev(focus_of_other_window(window_id), (window_id, other_view));
        assert(false);
    }
}

/// Entries that do not belong to `id`.
pub open spec fn not_of<T>(id: EntityId) -> spec_fn((EntityId, T)) -> bool {
    |entry: (EntityId, T)| entry.0 != id
}

/// Models other than `id`.
pub open spec fn other_model(id: EntityId) -> spec_fn(EntityId) -> bool {
    |model: EntityId| model != id
}

/// The positions, among the first `n` subscriptions, of those registered for the events of
/// `emitter`, in registration order.
pub open spec fn positions_before<Cb>(
    subscriptions: Seq<(EntityId, Subscription<Cb>)>,
    emitter: EntityId,
    n: nat,
) -> Seq<int>
    decreases n,
{
    if n == 0 {
        Seq::empty()
    } else {
        let earlier = positions_before(subscriptions, emitter, (n - 1) as nat);
        if subscriptions[n - 1].0 == emitter {
            earlier.push(n - 1)
        } else {
            earlier
        }
    }
}

/// The subscriptions whose callbacks an event of `emitter` reaches when effects are
/// flushed, by position and in registration order.
pub open spec fn subscriber_positions<Cb>(subscriptions: Seq<(EntityId, Subscription<Cb>)>, emitter: EntityId) -> Seq<int> {
    positions_before(subscriptions, emitter, subscriptions.len())
}

/// The positions among the first `n` subscriptions are exactly those registered for
/// `emitter`, each listed once, in increasing order.
proof fn lemma_positions_before<Cb>(subscriptions: Seq<(EntityId, Subscription<Cb>)>, emitter: EntityId, n: nat)
    requires
        n <= subscriptions.len(),
    ensures
        forall|k: int| 0 <= k < positions_before(subscriptions, emitter, n).len() ==> {
            let j = #[trigger] positions_before(subscriptions, emitter, n)[k];
            0 <= j < n && subscriptions[j].0 == emitter
        },
        forall|a: int, b: int| 0 <= a < b < positions_before(subscriptions, emitter, n).len() ==>
            #[trigger] positions_before(subscriptions, emitter, n)[a] < #[trigger] positions_before(subscriptions, emitter, n)[b],
        forall|j: int| 0 <= j < n && (#[trigger] subscriptions[j]).0 == emitter ==>
            positions_before(subscriptions, emitter, n).contains(j),
    decreases n,
{
    if n > 0 {
        lemma_positions_before(subscriptions, emitter, (n - 1) as nat);
        let earlier = positions_before(subscriptions, emitter, (n - 1) as nat);
        if subscriptions[n - 1].0 == emitter {
            assert(earlier.push(n - 1)[earlier.len() as int] == n - 1);
            assert forall|j: int| 0 <= j < n && (#[trigger] subscriptions[j]).0 == emitter implies
                earlier.push(n - 1).contains(j) by {
                if j < n - 1 {
                    let k = choose|k: int| 0 <= k < earlier.len() && earlier[k] == j;
                    assert(earlier.push(n - 1)[k] == j);
                }
            }
        }
    }
}

/// Every event of `emitter` reaches each subscription registered for it exactly once, in
/// the order they were registered, with the window and view that registered it, and
/// reaches no other subscription.
pub proof fn lemma_events_reach_each_subscriber_once<Cb>(
    subscriptions: Seq<(EntityId, Subscription<Cb>)>,
    emitter: EntityId,
    j: int,
)
    ensures
        subscriber_positions(subscriptions, emitter).contains(j) <==> (0 <= j < subscriptions.len()
            && subscriptions[j].0 == emitter),
        subscriber_positions(subscriptions, emitter).no_duplicates(),
        forall|a: int, b: int| 0 <= a < b < subscriber_positions(subscriptions, emitter).len() ==>
            #[trigger] subscriber_positions(subscriptions, emitter)[a]
                < #[trigger] subscriber_positions(subscriptions, emitter)[b],
{
    lemma_positions_before(subscriptions, emitter, subscriptions.len());
    let positions = subscriber_positions(subscriptions, emitter);
    if positions.contains(j) {
        let k = choose|k: int| 0 <= k < positions.len() && positions[k] == j;
        assert(0 <= positions[k] < subscriptions.len());
    }
    if 0 <= j < subscriptions.len() && subscriptions[j].0 == emitter {
        assert(positions.contains(j));
    }
    assert forall|a: int, b: int| 0 <= a < positions.len() && 0 <= b < positions.len() && a != b implies
        positions[a] != positions[b] by {
        if a < b {
            assert(positions[a] < positions[b]);
        } else {
            assert(positions[b] < positions[a]);
        }
    }
}

/// Once a model is dropped, none of its events reaches any subscription: the store keeps
/// no subscription to it.
pub proof fn lemma_dropped_models_reach_nobody<Cb>(
    subscriptions: Seq<(EntityId, Subscription<Cb>)>,
    model_id: EntityId,
)
    ensures
        subscriber_positions(subscriptions.filter(not_of::<Subscription<Cb>>(model_id)), model_id).len() == 0,
{
    let kept = subscriptions.filter(not_of::<Subscription<Cb>>(model_id));
    lemma_positions_before(kept, model_id, kept.len());
    if subscriber_positions(kept, model_id).len() > 0 {
        let j = subscriber_positions(kept, model_id)[0];
        subscriptions.lemma_filter_pred(not_of::<Subscription<Cb>>(model_id), j);
        assert(false);
    }
}

/// `entries` without the entries of `id`, in their order.
fn entries_not_of<T>(entries: Vec<(EntityId, T)>, id: EntityId) -> (kept: Vec<(EntityId, T)>)
    ensures
        kept@ == entries@.filter(not_of::<T>(id)),
{
    let ghost original = entries@;
    let mut rest = entries;
    let mut kept: Vec<(EntityId, T)> = Vec::new();
    while rest.len() > 0
        invariant
            original.filter(not_of::<T>(id)) == kept@ + rest@.filter(not_of::<T>(id)),
        decreases rest@.len(),
    {
        let ghost before = rest@;
        let entry = rest.remove(0);
        proof {
            assert(before =~= seq![entry] + rest@);
            Seq::filter_distributes_over_add(seq![entry], rest@, not_of::<T>(id));
            reveal_with_fuel(Seq::<_>::filter, 2);
            assert(seq![entry].drop_last() =~= Seq::<(EntityId, T)>::empty());
        }
        if entry.0.0 != id.0 {
            let ghost kept_before = kept@;
            kept.push(entry);
            proof {
                assert(seq![entry].filter(not_of::<T>(id)) =~= seq![entry]);
                assert(kept_before + (seq![entry] + rest@.filter(not_of::<T>(id)))
                    =~= kept@ + rest@.filter(not_of::<T>(id)));
            }
        } else {
            proof {
                assert(seq![entry].filter(not_of::<T>(id)) =~= Seq::<(EntityId, T)>::empty());
                assert(Seq::<(EntityId, T)>::empty() + rest@.filter(not_of::<T>(id)) =~= rest@.filter(not_of::<T>(id)));
            }
        }
    }
    proof {
        assert(rest@ =~= Seq::<(EntityId, T)>::empty());
        assert(rest@.filter(not_of::<T>(id)) =~= Seq::<(EntityId, T)>::empty());
        assert(kept@ + Seq::<(EntityId, T)>::empty() =~= kept@);
    }
    kept
}

/// Whether `after` is `before` with `effect` queued last and nothing else changed.
pub open spec fn queued<Ev, Ac, Cb>(
    before: AppContextView<Ev, Ac, Cb>,
    after: AppContextView<Ev, Ac, Cb>,
    effect: Effect<Ev, Ac>,
) -> bool {
    &&& after.effects == before.effects.push(effect)
    &&& after.subscriptions == before.subscriptions
    &&& after.observations == before.observations
    &&& after.focused == before.focused
    &&& after.models == before.models
    &&& after.next_entity_id == before.next_entity_id
}

impl<Ev, Ac, Cb> AppContext<Ev, Ac, Cb> {
    /// Model ids are handed out in increasing order, so every model's id is below the next one.
    #[verifier::type_invariant]
    spec fn ids_below_next(self) -> bool {
        forall|i: int| 0 <= i < self.models@.len() ==> (#[trigger] self.models@[i]).0 < self.next_entity_id
    }

    /// An application with nothing queued, registered or focused.
    pub fn new() -> (app: AppContext<Ev, Ac, Cb>)
        ensures
            models_below_next_id(app@),
            app@.effects.len() == 0,
            app@.subscriptions.len() == 0,
            app@.observations.len() == 0,
            app@.focused.len() == 0,
            app@.models.len() == 0,
            app@.next_entity_id == 0,
    {
        AppContext {
            pending_effects: Vec::new(),
            subscriptions: Vec::new(),
            observations: Vec::new(),
            focused_views: Vec::new(),
            models: Vec::new(),
            next_entity_id: 0,
        }
    }

    /// Records that `view_id` now has the focus of `window_id`, as flushing a focus effect
    /// does.
    pub fn set_focused_view(&mut self, window_id: WindowId, view_id: EntityId)
        ensures
            final(self)@.focused == old(self)@.focused.filter(focus_of_other_window(window_id)).push((window_id, view_id)),
            final(self)@.effects == old(self)@.effects,
            final(self)@.subscriptions == old(self)@.subscriptions,
            final(self)@.observations == old(self)@.observations,
            final(self)@.models == old(self)@.models,
            final(self)@.next_entity_id == old(self)@.next_entity_id,
    {
        proof {
            use_type_invariant(&*self);
        }
        let mut kept: Vec<(WindowId, EntityId)> = Vec::new();
        let mut i: usize = 0;
        while i < self.focused_views.len()
            invariant
                0 <= i <= self.focused_views@.len(),
                kept@ == self.focused_views@.take(i as int).filter(focus_of_other_window(window_id)),
            decreases self.focused_views@.len() - i,
        {
            proof {
                reveal_with_fuel(Seq::<_>::filter, 1);
                assert(self.focused_views@.take(i + 1).drop_last() =~= self.focused_views@.take(i as int));
            }
            let entry = self.focused_views[i];
            assert(self.focused_views@.take(i + 1).last() == entry);
            assert(focus_of_other_window(window_id)(entry) == (entry.0 != window_id));
            if entry.0 != window_id {
                kept.push(entry);
            }
            i = i + 1;
        }
        assert(self.focused_views@.take(self.focused_views@.len() as int) =~= self.focused_views@);
        kept.push((window_id, view_id));
        self.focused_views = kept;
    }

    /// Whether `view_id` has the focus of `window_id`.
    pub fn check_view_focused(&self, window_id: WindowId, view_id: &EntityId) -> (focused: bool)
        ensures
            focused == is_focused(self@, window_id, *view_id),
    {
        let mut i: usize = 0;
        while i < self.focused_views.len()
            invariant
                0 <= i <= self.focused_views@.len(),
                forall|j: int| 0 <= j < i ==> self.focused_views@[j] != (window_id, *view_id),
            decreases self.focused_views@.len() - i,
        {
            let entry = self.focused_views[i];
            if entry.0 == window_id && entry.1 == *view_id {
                return true;
            }
            i = i + 1;
        }
        false
    }

    /// Drops the model `model_id`: it leaves the models, and every subscription to its
    /// events and every observation of it is removed, so no callback registered for it runs
    /// again. Everything else is kept in order.
    pub fn drop_model(&mut self, model_id: EntityId)
        ensures
            final(self)@.models == old(self)@.models.filter(other_model(model_id)),
            final(self)@.subscriptions == old(self)@.subscriptions.filter(not_of::<Subscription<Cb>>(model_id)),
            final(self)@.observations == old(self)@.observations.filter(not_of::<Observation<Cb>>(model_id)),
            final(self)@.effects == old(self)@.effects,
            final(self)@.focused == old(self)@.focused,
            final(self)@.next_entity_id == old(self)@.next_entity_id,
    {
        proof {
            use_type_invariant(&*self);
        }
        let mut subscriptions = Vec::new();
        std::mem::swap(&mut subscriptions, &mut self.subscriptions);
        self.subscriptions = entries_not_of(subscriptions, model_id);
        let mut observations = Vec::new();
        std::mem::swap(&mut observations, &mut self.observations);
        self.observations = entries_not_of(observations, model_id);
        let ghost models = self.models@;
        let mut kept: Vec<EntityId> = Vec::new();
        let mut i: usize = 0;
        while i < self.models.len()
            invariant
                0 <= i <= models.len(),
                models == self.models@,
                kept@ == models.take(i as int).filter(other_model(model_id)),
                forall|k: int| 0 <= k < kept@.len() ==> (#[trigger] kept@[k]).0 < self.next_entity_id,
                forall|k: int| 0 <= k < models.len() ==> (#[trigger] models[k]).0 < self.next_entity_id,
            decreases models.len() - i,
        {
            proof {
                reveal_with_fuel(Seq::<_>::filter, 1);
                assert(models.take(i + 1).drop_last() =~= models.take(i as int));
            }
            let model = self.models[i];
            assert(models.take(i + 1).last() == model);
            assert(other_model(model_id)(model) == (model != model_id));
            if model.0 != model_id.0 {
                kept.push(model);
            }
            i = i + 1;
        }
        assert(models.take(models.len() as int) =~= models);
        self.models = kept;
    }

    /// The positions of the subscriptions that an event of `emitter_id` reaches, in
    /// registration order.
    pub fn subscribers_of(&self, emitter_id: EntityId) -> (positions: Vec<usize>)
        ensures
            positions@.len() == subscriber_positions(self@.subscriptions, emitter_id).len(),
            forall|k: int| 0 <= k < positions@.len() ==> positions@[k] as int
                == #[trigger] subscriber_positions(self@.subscriptions, emitter_id)[k],
    {
        let ghost subscriptions = self.subscriptions@;
        let mut positions: Vec<usize> = Vec::new();
        let mut i: usize = 0;
        while i < self.subscriptions.len()
            invariant
                0 <= i <= subscriptions.len(),
                subscriptions == self.subscriptions@,
                positions@.len() == positions_before(subscriptions, emitter_id, i as nat).len(),
                forall|k: int| 0 <= k < positions@.len() ==> positions@[k] as int
                    == #[trigger] positions_before(subscriptions, emitter_id, i as nat)[k],
            decreases subscriptions.len() - i,
        {
            let ghost earlier = positions_before(subscriptions, emitter_id, i as nat);
            assert(positions_before(subscriptions, emitter_id, (i + 1) as nat) == if subscriptions[i as int].0
                == emitter_id {
                earlier.push(i as int)
            } else {
                earlier
            });
            if self.subscriptions[i].0.0 == emitter_id.0 {
                positions.push(i);
                assert(forall|k: int| 0 <= k < earlier.len() ==> earlier.push(i as int)[k] == earlier[k]);
            }
            i = i + 1;
        }
        positions
    }

    /// The effects queued so far, oldest first.
    pub fn pending_effects(&self) -> (effects: &[Effect<Ev, Ac>])
        ensures
            effects@ == self@.effects,
    {
        self.pending_effects.as_slice()
    }

    /// The subscriptions registered so far, each with its emitter, oldest first.
    pub fn subscriptions(&self) -> (subscriptions: &[(EntityId, Subscription<Cb>)])
        ensures
            subscriptions@ == self@.subscriptions,
    {
        self.subscriptions.as_slice()
    }

    /// The observations registered so far, each with the observed entity, oldest first.
    pub fn observations(&self) -> (observations: &[(EntityId, Observation<Cb>)])
        ensures
            observations@ == self@.observations,
    {
        self.observations.as_slice()
    }

    /// The models added so far, oldest first.
    pub fn models(&self) -> (models: &[EntityId])
        ensures
            models@ == self@.models,
    {
        self.models.as_slice()
    }

    fn push_effect(&mut self, effect: Effect<Ev, Ac>)
        ensures
            queued(old(self)@, final(self)@, effect),
    {
        proof {
            use_type_invariant(&*self);
        }
        let mut pending_effects_taken = Vec::new();
        std::mem::swap(&mut pending_effects_taken, &mut self.pending_effects);
        pending_effects_taken.push(effect);
        self.pending_effects = pending_effects_taken;
    }

    fn allocate_model(&mut self) -> (id: EntityId)
        requires
            old(self)@.next_entity_id < u64::MAX,
        ensures
            !old(self)@.models.contains(id),
            id.0 == old(self)@.next_entity_id,
            final(self)@.models == old(self)@.models.push(id),
            final(self)@.next_entity_id == old(self)@.next_entity_id + 1,
            models_below_next_id(final(self)@),
            final(self)@.effects == old(self)@.effects,
            final(self)@.subscriptions == old(self)@.subscriptions,
            final(self)@.observations == old(self)@.observations,
            final(self)@.focused == old(self)@.focused,
    {
        proof {
            use_type_invariant(&*self);
        }
        let id = EntityId(self.next_entity_id);
        let mut models_taken = Vec::new();
        std::mem::swap(&mut models_taken, &mut self.models);
        models_taken.push(id);
        let next = self.next_entity_id + 1;
        proof {
            assert forall|i: int| 0 <= i < models_taken@.len() implies (#[trigger] models_taken@[i]).0 < next by {
                if i < models_taken@.len() - 1 {
                    assert(models_taken@[i] == old(self)@.models[i]);
                }
            }
        }
        self.next_entity_id = next;
        self.models = models_taken;
        id
    }

    fn add_subscription(&mut self, emitter_id: EntityId, subscription: Subscription<Cb>)
        ensures
            registered_subscription(old(self)@, final(self)@, emitter_id, subscription),
    {
        proof {
            use_type_invariant(&*self);
        }
        let mut subscriptions_taken = Vec::new();
        std::mem::swap(&mut subscriptions_taken, &mut self.subscriptions);
        subscriptions_taken.push((emitter_id, subscription));
        self.subscriptions = subscriptions_taken;
    }

    fn add_observation(&mut self, observed_id: EntityId, observation: Observation<Cb>)
        ensures
            registered_observation(old(self)@, final(self)@, observed_id, observation),
    {
        proof {
            use_type_invariant(&*self);
        }
        let mut observations_taken = Vec::new();
        std::mem::swap(&mut observations_taken, &mut self.observations);
        observations_taken.push((observed_id, observation));
        self.observations = observations_taken;
    }
}

/// Whether `after` is `before` with `subscription` to `emitter_id` registered last and
/// nothing else changed.
pub open spec fn registered_subscription<Ev, Ac, Cb>(
    before: AppContextView<Ev, Ac, Cb>,
    after: AppContextView<Ev, Ac, Cb>,
    emitter_id: EntityId,
    subscription: Subscription<Cb>,
) -> bool {
    &&& after.subscriptions == before.subscriptions.push((emitter_id, subscription))
    &&& after.effects == before.effects
    &&& after.observations == before.observations
    &&& after.focused == before.focused
    &&& after.models == before.models
    &&& after.next_entity_id == before.next_entity_id
}

/// Whether `after` is `before` with `observation` of `observed_id` registered last and
/// nothing else changed.
pub open spec fn registered_observation<Ev, Ac, Cb>(
    before: AppContextView<Ev, Ac, Cb>,
    after: AppContextView<Ev, Ac, Cb>,
    observed_id: EntityId,
    observation: Observation<Cb>,
) -> bool {
    &&& after.observations == before.observations.push((observed_id, observation))
    &&& after.effects == before.effects
    &&& after.subscriptions == before.subscriptions
    &&& after.focused == before.focused
    &&& after.models == before.models
    &&& after.next_entity_id == before.next_entity_id
}

/// A view's identity together with mutable access to the shared application context. Every
/// operation acts on behalf of this view: events, notifications and deferred actions it
/// queues, and the subscriptions and observations it registers, carry its window and id.
pub struct TuiViewContext<'a, Ev, Ac, Cb> {
    pub app: &'a mut AppContext<Ev, Ac, Cb>,
    pub window_id: WindowId,
    pub view_id: EntityId,
}

impl<'a, Ev, Ac, Cb> TuiViewContext<'a, Ev, Ac, Cb> {
    /// The context of view `view_id` in window `window_id`; what it does to `app` stays in
    /// `app` when the context ends.
    pub fn new(app: &'a mut AppContext<Ev, Ac, Cb>, window_id: WindowId, view_id: EntityId) -> (ctx:
        TuiViewContext<'a, Ev, Ac, Cb>)
        ensures
            ctx.app@ == old(app)@,
            *final(app) == *final(ctx.app),
            ctx.window_id == window_id,
            ctx.view_id == view_id,
    {
        TuiViewContext { app, window_id, view_id }
    }

    /// A handle on this view that does not keep it alive.
    pub fn handle(&self) -> (handle: WeakTuiViewHandle)
        ensures
            handle.view_id == self.view_id,
    {
        WeakTuiViewHandle { view_id: self.view_id }
    }

    pub fn window_id(&self) -> (window_id: WindowId)
        ensures
            window_id == self.window_id,
    {
        self.window_id
    }

    pub fn view_id(&self) -> (view_id: EntityId)
        ensures
            view_id == self.view_id,
    {
        self.view_id
    }

    /// Whether this view has the focus of its window.
    pub fn is_self_focused(&self) -> (focused: bool)
        ensures
            focused == is_focused(old(self.app)@, self.window_id, self.view_id),
    {
        self.app.check_view_focused(self.window_id, &self.view_id)
    }

    /// Queues moving the focus to the view behind `handle`.
    pub fn focus(&mut self, handle: &TuiViewHandle)
        ensures
            queued(old(self).app@, final(self).app@, Effect::Focus { window_id: handle.window_id, view_id: handle.view_id }),
            *final(final(self).app) == *final(old(self).app),
            final(self).window_id == old(self).window_id,
            final(self).view_id == old(self).view_id,
    {
        let window_id = handle.window_id;
        let view_id = handle.view_id;
        self.app.push_effect(Effect::Focus { window_id, view_id });
    }

    /// Queues moving the focus to this view.
    pub fn focus_self(&mut self)
        ensures
            queued(old(self).app@, final(self).app@, Effect::Focus { window_id: old(self).window_id, view_id: old(self).view_id }),
            *final(final(self).app) == *final(old(self).app),
            final(self).window_id == old(self).window_id,
            final(self).view_id == old(self).view_id,
    {
        let window_id = self.window_id;
        let view_id = self.view_id;
        self.app.push_effect(Effect::Focus { window_id, view_id });
    }

    /// Adds a model and returns its handle; its id was never handed out before.
    pub fn add_model(&mut self) -> (handle: ModelHandle)
        requires
            old(self).app@.next_entity_id < u64::MAX,
        ensures
            !old(self).app@.models.contains(handle.id),
            final(self).app@.models == old(self).app@.models.push(handle.id),
            final(self).app@.next_entity_id == old(self).app@.next_entity_id + 1,
            models_below_next_id(final(self).app@),
            final(self).app@.effects == old(self).app@.effects,
            final(self).app@.subscriptions == old(self).app@.subscriptions,
            final(self).app@.observations == old(self).app@.observations,
            final(self).app@.focused == old(self).app@.focused,
            *final(final(self).app) == *final(old(self).app),
            final(self).window_id == old(self).window_id,
            final(self).view_id == old(self).view_id,
    {
        let id = self.app.allocate_model();
        ModelHandle { id }
    }

    /// Registers `callback` for the events of the model behind `handle`.
    pub fn subscribe_to_model(&mut self, handle: &ModelHandle, callback: Cb)
        ensures
            registered_subscription(old(self).app@, final(self).app@, handle.id, Subscription { window_id: old(self).window_id, view_id: old(self).view_id, callback }),
            *final(final(self).app) == *final(old(self).app),
            final(self).window_id == old(self).window_id,
            final(self).view_id == old(self).view_id,
    {
        let subscription = Subscription { window_id: self.window_id, view_id: self.view_id, callback };
        self.app.add_subscription(handle.id, subscription);
    }

    /// Registers `callback` for the events of the view behind `handle`.
    pub fn subscribe_to_view(&mut self, handle: &TuiViewHandle, callback: Cb)
        ensures
            registered_subscription(old(self).app@, final(self).app@, handle.view_id, Subscription { window_id: old(self).window_id, view_id: old(self).view_id, callback }),
            *final(final(self).app) == *final(old(self).app),
            final(self).window_id == old(self).window_id,
            final(self).view_id == old(self).view_id,
    {
        let subscription = Subscription { window_id: self.window_id, view_id: self.view_id, callback };
        self.app.add_subscription(handle.view_id, subscription);
    }

    /// Registers `callback` for the notifications of the model behind `handle`.
    pub fn observe(&mut self, handle: &ModelHandle, callback: Cb)
        ensures
            registered_observation(old(self).app@, final(self).app@, handle.id, Observation { window_id: old(self).window_id, view_id: old(self).view_id, callback }),
            *final(final(self).app) == *final(old(self).app),
            final(self).window_id == old(self).window_id,
            final(self).view_id == old(self).view_id,
    {
        let observation = Observation { window_id: self.window_id, view_id: self.view_id, callback };
        self.app.add_observation(handle.id, observation);
    }

    /// Queues `payload` as an event of this view, for its subscribers.
    pub fn emit(&mut self, payload: Ev)
        ensures
            queued(old(self).app@, final(self).app@, Effect::Event { entity_id: old(self).view_id, payload }),
            *final(final(self).app) == *final(old(self).app),
            final(self).window_id == old(self).window_id,
            final(self).view_id == old(self).view_id,
    {
        let entity_id = self.view_id;
        self.app.push_effect(Effect::Event { entity_id, payload });
    }

    /// Queues a re-render of this view.
    pub fn notify(&mut self)
        ensures
            queued(old(self).app@, final(self).app@, Effect::ViewNotification { window_id: old(self).window_id, view_id: old(self).view_id }),
            *final(final(self).app) == *final(old(self).app),
            final(self).window_id == old(self).window_id,
            final(self).view_id == old(self).view_id,
    {
        let window_id = self.window_id;
        let view_id = self.view_id;
        self.app.push_effect(Effect::ViewNotification { window_id, view_id });
    }

    /// Queues `action` for dispatch to this view when effects are flushed.
    pub fn dispatch_typed_action_deferred(&mut self, action: Ac)
        ensures
            queued(old(self).app@, final(self).app@, Effect::TypedAction { window_id: old(self).window_id, view_id: old(self).view_id, action }),
            *final(final(self).app) == *final(old(self).app),
            final(self).window_id == old(self).window_id,
            final(self).view_id == old(self).view_id,
    {
        let window_id = self.window_id;
        let view_id = self.view_id;
        self.app.push_effect(Effect::TypedAction { window_id, view_id, action });
    }
}

} // verus!
