use vstd::prelude::*;

use vstd::std_specs::convert::FromSpecImpl;

use crate::view_context::{
    models_below_next_id, queued, Effect, ModelHandle, TuiViewContext,
};

verus! {

/// Pane-level events.
#[derive(Clone, Copy, Debug, PartialEq, Eq, Structural)]
pub enum PaneEvent {
    Close,
    ToggleMaximized,
    FocusSelf,
}

/// Events emitted by the notebook view.
#[derive(Clone, Debug, PartialEq, Eq)]
pub enum JupyterNotebookEvent {
    /// The notebook went from clean to dirty.
    Dirtied,
    /// The user asked to save; `json` is the whole `.ipynb` to write.
    SaveRequested { json: String },
    /// The user switched to the raw view; `json` is the notebook with unsaved edits.
    RawRequested { json: String },
    /// The view gained focus.
    Focused,
    /// A pane-level event.
    Pane(PaneEvent),
}

impl From<PaneEvent> for JupyterNotebookEvent {
    fn from(event: PaneEvent) -> (notebook_event: JupyterNotebookEvent) {
        JupyterNotebookEvent::Pane(event)
    }
}

impl FromSpecImpl<PaneEvent> for JupyterNotebookEvent {
    open spec fn obeys_from_spec() -> bool {
        true
    }

    open spec fn from_spec(event: PaneEvent) -> JupyterNotebookEvent {
        JupyterNotebookEvent::Pane(event)
    }
}

/// The title shown for a notebook at `path`, or `Untitled` without one.
pub open spec fn notebook_title(path: Option<String>) -> Seq<char> {
    match path {
        Some(path) => path@,
        None => "Untitled"@,
    }
}

/// A Jupyter notebook pane: the notebook's `.ipynb` text, where it lives (by its display
/// path), whether it has unsaved edits, and the pane configuration model it owns.
pub struct JupyterNotebookView {
    content: String,
    path: Option<String>,
    dirty: bool,
    pane_configuration: ModelHandle,
}

impl JupyterNotebookView {
    pub closed spec fn spec_content(&self) -> Seq<char> {
        self.content@
    }

    pub closed spec fn spec_path(&self) -> Option<String> {
        self.path
    }

    pub closed spec fn spec_dirty(&self) -> bool {
        self.dirty
    }

    pub closed spec fn spec_pane_configuration(&self) -> ModelHandle {
        self.pane_configuration
    }

    /// A clean notebook view over `content`, owning a new pane configuration model.
    pub fn new<Ac, Cb>(
        content: &str,
        path: Option<String>,
        ctx: &mut TuiViewContext<'_, JupyterNotebookEvent, Ac, Cb>,
    ) -> (view: JupyterNotebookView)
        requires
            old(ctx).app@.next_entity_id < u64::MAX,
            models_below_next_id(old(ctx).app@),
        ensures
            view.spec_content() == content@,
            view.spec_path() == path,
            !view.spec_dirty(),
            !old(ctx).app@.models.contains(view.spec_pane_configuration().id),
            final(ctx).app@.models == old(ctx).app@.models.push(view.spec_pane_configuration().id),
            final(ctx).app@.effects == old(ctx).app@.effects,
            models_below_next_id(final(ctx).app@),
            *final(final(ctx).app) == *final(old(ctx).app),
            final(ctx).view_id == old(ctx).view_id,
            final(ctx).window_id == old(ctx).window_id,
    {
        let pane_configuration = ctx.add_model();
        JupyterNotebookView { content: content.to_owned(), path, dirty: false, pane_configuration }
    }

    /// Replaces the content after an external reload; the notebook is clean again.
    pub fn set_content<Ac, Cb>(
        &mut self,
        content: &str,
        ctx: &mut TuiViewContext<'_, JupyterNotebookEvent, Ac, Cb>,
    )
        ensures
            final(self).spec_content() == content@,
            final(self).spec_path() == old(self).spec_path(),
            !final(self).spec_dirty(),
            final(self).spec_pane_configuration() == old(self).spec_pane_configuration(),
            queued(old(ctx).app@, final(ctx).app@, Effect::ViewNotification { window_id: old(ctx).window_id, view_id: old(ctx).view_id }),
            *final(final(ctx).app) == *final(old(ctx).app),
            final(ctx).view_id == old(ctx).view_id,
            final(ctx).window_id == old(ctx).window_id,
    {
        self.content = content.to_owned();
        self.dirty = false;
        ctx.notify();
    }

    /// The current `.ipynb` JSON.
    pub fn to_json(&self) -> (json: String)
        ensures
            json@ == self.spec_content(),
    {
        self.content.clone()
    }

    pub fn is_dirty(&self) -> (dirty: bool)
        ensures
            dirty == self.spec_dirty(),
    {
        self.dirty
    }

    /// The host saved the notebook: it is clean.
    pub fn mark_saved<Ac, Cb>(&mut self, ctx: &mut TuiViewContext<'_, JupyterNotebookEvent, Ac, Cb>)
        ensures
            !final(self).spec_dirty(),
            final(self).spec_content() == old(self).spec_content(),
            final(self).spec_path() == old(self).spec_path(),
            final(self).spec_pane_configuration() == old(self).spec_pane_configuration(),
            queued(old(ctx).app@, final(ctx).app@, Effect::ViewNotification { window_id: old(ctx).window_id, view_id: old(ctx).view_id }),
            *final(final(ctx).app) == *final(old(ctx).app),
            final(ctx).view_id == old(ctx).view_id,
            final(ctx).window_id == old(ctx).window_id,
    {
        self.dirty = false;
        ctx.notify();
    }

    /// Asks the host to save the current JSON.
    pub fn request_save<Ac, Cb>(&mut self, ctx: &mut TuiViewContext<'_, JupyterNotebookEvent, Ac, Cb>)
        ensures
            *final(self) == *old(self),
            final(ctx).app@.effects.len() == old(ctx).app@.effects.len() + 1,
            final(ctx).app@.effects.drop_last() == old(ctx).app@.effects,
            final(ctx).app@.effects.last() matches Effect::Event { entity_id, payload: JupyterNotebookEvent::SaveRequested { json } }
                && entity_id == old(ctx).view_id && json@ == old(self).spec_content(),
            *final(final(ctx).app) == *final(old(ctx).app),
            final(ctx).view_id == old(ctx).view_id,
            final(ctx).window_id == old(ctx).window_id,
    {
        let json = self.to_json();
        ctx.emit(JupyterNotebookEvent::SaveRequested { json });
    }

    /// Where the notebook lives, if it has a path.
    pub fn path(&self) -> (path: Option<&String>)
        ensures
            match self.spec_path() {
                Some(p) => path == Some(&p),
                None => path is None,
            },
    {
        self.path.as_ref()
    }

    /// The notebook's title: its display path, or `Untitled`.
    pub fn title(&self) -> (title: String)
        ensures
            title@ == notebook_title(self.spec_path()),
    {
        match &self.path {
            Some(path) => path.clone(),
            None => "Untitled".to_owned(),
        }
    }

    pub fn pane_configuration(&self) -> (handle: ModelHandle)
        ensures
            handle == self.spec_pane_configuration(),
    {
        self.pane_configuration
    }

    /// Closing the pane is announced as a pane event.
    pub fn close<Ac, Cb>(&mut self, ctx: &mut TuiViewContext<'_, JupyterNotebookEvent, Ac, Cb>)
        ensures
            *final(self) == *old(self),
            queued(old(ctx).app@, final(ctx).app@, Effect::Event { entity_id: old(ctx).view_id, payload: JupyterNotebookEvent::Pane(PaneEvent::Close) }),
            *final(final(ctx).app) == *final(old(ctx).app),
            final(ctx).view_id == old(ctx).view_id,
            final(ctx).window_id == old(ctx).window_id,
    {
        ctx.emit(JupyterNotebookEvent::Pane(PaneEvent::Close));
    }

    /// Focusing the contents is announced as `Focused`.
    pub fn focus_contents<Ac, Cb>(&mut self, ctx: &mut TuiViewContext<'_, JupyterNotebookEvent, Ac, Cb>)
        ensures
            *final(self) == *old(self),
            queued(old(ctx).app@, final(ctx).app@, Effect::Event { entity_id: old(ctx).view_id, payload: JupyterNotebookEvent::Focused }),
            *final(final(ctx).app) == *final(old(ctx).app),
            final(ctx).view_id == old(ctx).view_id,
            final(ctx).window_id == old(ctx).window_id,
    {
        ctx.emit(JupyterNotebookEvent::Focused);
    }
}

} // verus!
