//! The per-window renderer registry.
//!
//! The engine maps window identities to the renderer (and so the graphics
//! context) owned for that window, keeps a parallel record of the window
//! handles themselves, and designates one window as primary.  The two
//! records always cover exactly the same window ids; closing the primary
//! window asks the application to terminate, closing any other window
//! removes and destroys only that window's entries.

use vstd::prelude::*;

use crate::context::{
    spec_context_matches, spec_create_error, spec_create_events, spec_create_succeeds,
    spec_destroy_events, Context, CreateConfig, DriverHost, InitError,
};
use crate::ledger::DriverLog;

verus! {

/// One renderer, owning the graphics context of one window.
pub struct Renderer {
    pub context: Context,
}

impl Renderer {
    /// Build the renderer for one window by building its context; fails
    /// exactly when context construction fails, leaking nothing.
    pub fn new(host: &DriverHost, config: &CreateConfig, log: &mut DriverLog) -> (r: Result<
        Renderer,
        InitError,
    >)
        ensures
            r is Ok <==> spec_create_succeeds(*host, *config),
            r matches Ok(rn) ==> spec_context_matches(rn.context, *host, *config),
            r matches Err(e) ==> e == spec_create_error(*host, *config),
            final(log).events@ == old(log).events@ + spec_create_events(*host, *config),
            r is Err ==> final(log).live_instances() == old(log).live_instances()
                && final(log).live_messengers() == old(log).live_messengers()
                && final(log).live_devices() == old(log).live_devices(),
            r is Ok ==> final(log).live_instances() == old(log).live_instances() + 1
                && final(log).live_devices() == old(log).live_devices() + 1
                && final(log).live_messengers() == old(log).live_messengers() + (
            if config.diagnostics {
                1int
            } else {
                0int
            }),
    {
        match Context::create(host, config, log) {
            Ok(context) => Ok(Renderer { context }),
            Err(e) => Err(e),
        }
    }
}

/// A window's identity and the handle the windowing layer returned for it.
pub struct WindowEntry {
    pub id: u64,
    pub handle: u64,
}

/// A window's identity and the renderer owned for it.
pub struct RendererEntry {
    pub id: u64,
    pub renderer: Renderer,
}

/// A window lifecycle event delivered by the windowing layer.
#[derive(Clone, Copy, Debug, PartialEq, Eq, Structural)]
pub enum WindowEvent {
    CloseRequested,
    Resized,
    RedrawRequested,
}

/// What the event loop must do after an event was handled.
#[derive(Clone, Copy, Debug, PartialEq, Eq, Structural)]
pub enum EventResponse {
    /// Keep running.
    Continue,
    /// The primary window was closed: terminate the application.
    Exit,
}

/// Debug messengers held by the given renderer entries.
pub open spec fn spec_messenger_count(s: Seq<RendererEntry>) -> int
    decreases s.len(),
{
    if s.len() == 0 {
        0
    } else {
        spec_messenger_count(s.drop_last()) + if s.last().renderer.context.data.messenger {
            1int
        } else {
            0int
        }
    }
}

proof fn lemma_messenger_count_remove(s: Seq<RendererEntry>, i: int)
    requires
        0 <= i < s.len(),
    ensures
        spec_messenger_count(s.remove(i)) == spec_messenger_count(s) - (
        if s[i].renderer.context.data.messenger {
            1int
        } else {
            0int
        }),
    decreases s.len(),
{
    if i == s.len() - 1 {
        assert(s.remove(i) =~= s.drop_last());
    } else {
        assert(s.remove(i).drop_last() =~= s.drop_last().remove(i));
        assert(s.remove(i).last() == s.last());
        lemma_messenger_count_remove(s.drop_last(), i);
    }
}

proof fn lemma_no_duplicates_remove(s: Seq<u64>, i: int)
    requires
        s.no_duplicates(),
        0 <= i < s.len(),
    ensures
        s.remove(i).no_duplicates(),
{
    assert forall|p: int, q: int|
        0 <= p < s.remove(i).len() && 0 <= q < s.remove(i).len() && p != q implies s.remove(i)[p]
        != s.remove(i)[q] by {
        assert(s.remove(i)[p] == if p < i {
            s[p]
        } else {
            s[p + 1]
        });
        assert(s.remove(i)[q] == if q < i {
            s[q]
        } else {
            s[q + 1]
        });
    }
}

/// The registry: windows and renderers keyed by window id, in lockstep,
/// with one designated primary window.
pub struct Engine {
    pub windows: Vec<WindowEntry>,
    pub renderers: Vec<RendererEntry>,
    pub primary_window_id: u64,
}

impl Engine {
    /// Window ids the window record covers, in insertion order.
    pub open spec fn window_ids(self) -> Seq<u64> {
        self.windows@.map_values(|w: WindowEntry| w.id)
    }

    /// Window ids the renderer record covers, in insertion order.
    pub open spec fn renderer_ids(self) -> Seq<u64> {
        self.renderers@.map_values(|r: RendererEntry| r.id)
    }

    /// Well-formedness: the two records cover exactly the same ids, each
    /// id at most once, and the primary window is among them.
    pub open spec fn wf(self) -> bool {
        &&& self.window_ids() == self.renderer_ids()
        &&& self.window_ids().no_duplicates()
        &&& self.window_ids().contains(self.primary_window_id)
    }

    /// The log's live handles are exactly the registry's: one instance and
    /// one device per renderer, one messenger per diagnostics-enabled one.
    /// Holds whenever the log records only this registry's activity.
    pub open spec fn accounts_for(self, log: DriverLog) -> bool {
        &&& log.live_instances() == self.renderers@.len()
        &&& log.live_devices() == self.renderers@.len()
        &&& log.live_messengers() == spec_messenger_count(self.renderers@)
    }

    /// Build the registry around its primary window, whose id and handle
    /// the windowing layer has produced; fails exactly when the primary
    /// window's context cannot be built, leaking nothing.
    pub fn new(
        primary_window_id: u64,
        primary_window_handle: u64,
        host: &DriverHost,
        config: &CreateConfig,
        log: &mut DriverLog,
    ) -> (r: Result<Engine, InitError>)
        ensures
            r is Ok <==> spec_create_succeeds(*host, *config),
            r matches Err(e) ==> e == spec_create_error(*host, *config),
            final(log).events@ == old(log).events@ + spec_create_events(*host, *config),
            r is Err ==> final(log).live_instances() == old(log).live_instances()
                && final(log).live_messengers() == old(log).live_messengers()
                && final(log).live_devices() == old(log).live_devices(),
            r matches Ok(engine) ==> {
                &&& engine.wf()
                &&& engine.primary_window_id == primary_window_id
                &&& engine.windows@.len() == 1
                &&& engine.windows@[0].id == primary_window_id
                &&& engine.windows@[0].handle == primary_window_handle
                &&& engine.renderers@.len() == 1
                &&& engine.renderers@[0].id == primary_window_id
                &&& spec_context_matches(engine.renderers@[0].renderer.context, *host, *config)
                &&& (old(log).no_live_handles() ==> engine.accounts_for(*final(log)))
            },
    {
        let renderer = match Renderer::new(host, config, log) {
            Ok(renderer) => renderer,
            Err(e) => {
                return Err(e);
            },
        };
        let mut windows: Vec<WindowEntry> = Vec::new();
        windows.push(WindowEntry { id: primary_window_id, handle: primary_window_handle });
        let mut renderers: Vec<RendererEntry> = Vec::new();
        renderers.push(RendererEntry { id: primary_window_id, renderer });
        let engine = Engine { windows, renderers, primary_window_id };
        proof {
            assert(engine.window_ids() =~= seq![primary_window_id]);
            assert(engine.renderer_ids() =~= seq![primary_window_id]);
            assert(engine.window_ids()[0] == primary_window_id);
            assert(spec_messenger_count(engine.renderers@) == if config.diagnostics {
                1int
            } else {
                0int
            }) by {
                let rs = engine.renderers@;
                assert(rs.drop_last() =~= Seq::<RendererEntry>::empty());
                assert(spec_messenger_count(Seq::<RendererEntry>::empty()) == 0);
                assert(spec_messenger_count(rs) == spec_messenger_count(rs.drop_last()) + (
                if rs.last().renderer.context.data.messenger {
                    1int
                } else {
                    0int
                }));
                assert(rs.last().renderer.context.data.messenger == config.diagnostics);
            }
        }
        Ok(engine)
    }

    /// Ask the windowing layer's new window (id and handle already
    /// produced) for a context and insert both records; when context
    /// construction fails, nothing is inserted, so no orphaned window
    /// entry is ever left behind.
    pub fn create_window(
        &mut self,
        window_id: u64,
        window_handle: u64,
        host: &DriverHost,
        config: &CreateConfig,
        log: &mut DriverLog,
    ) -> (r: Result<u64, InitError>)
        requires
            old(self).wf(),
            !old(self).window_ids().contains(window_id),
        ensures
            final(self).wf(),
            final(self).primary_window_id == old(self).primary_window_id,
            r is Ok <==> spec_create_succeeds(*host, *config),
            final(log).events@ == old(log).events@ + spec_create_events(*host, *config),
            r matches Err(e) ==> e == spec_create_error(*host, *config) && *final(self) == *old(
                self,
            ) && final(log).live_instances() == old(log).live_instances()
                && final(log).live_messengers() == old(log).live_messengers()
                && final(log).live_devices() == old(log).live_devices(),
            r matches Ok(id) ==> {
                &&& id == window_id
                &&& final(self).windows@ == old(self).windows@.push(
                    WindowEntry { id: window_id, handle: window_handle },
                )
                &&& final(self).renderers@.len() == old(self).renderers@.len() + 1
                &&& final(self).renderers@.drop_last() == old(self).renderers@
                &&& final(self).renderers@.last().id == window_id
                &&& spec_context_matches(
                    final(self).renderers@.last().renderer.context,
                    *host,
                    *config,
                )
            },
            old(self).accounts_for(*old(log)) ==> final(self).accounts_for(*final(log)),
    {
        let renderer = match Renderer::new(host, config, log) {
            Ok(renderer) => renderer,
            Err(e) => {
                return Err(e);
            },
        };
        self.windows.push(WindowEntry { id: window_id, handle: window_handle });
        self.renderers.push(RendererEntry { id: window_id, renderer });
        proof {
            assert(self.window_ids() =~= old(self).window_ids().push(window_id));
            assert(self.renderer_ids() =~= old(self).renderer_ids().push(window_id));
            let ids = self.window_ids();
            assert(ids.no_duplicates()) by {
                assert forall|p: int, q: int|
                    0 <= p < ids.len() && 0 <= q < ids.len() && p != q implies ids[p]
                    != ids[q] by {
                    if p < ids.len() - 1 && q < ids.len() - 1 {
                    } else if q == ids.len() - 1 && ids[p] == window_id {
                        assert(old(self).window_ids().contains(window_id));
                    } else if p == ids.len() - 1 && ids[q] == window_id {
                        assert(old(self).window_ids().contains(window_id));
                    }
                }
            }
            assert(ids.contains(self.primary_window_id)) by {
                let k = choose|k: int|
                    0 <= k < old(self).window_ids().len() && old(self).window_ids()[k] == old(
                        self,
                    ).primary_window_id;
                assert(ids[k] == self.primary_window_id);
            }
            assert(spec_messenger_count(self.renderers@) == spec_messenger_count(
                old(self).renderers@,
            ) + if config.diagnostics {
                1int
            } else {
                0int
            }) by {
                assert(self.renderers@.drop_last() =~= old(self).renderers@);
            }
        }
        Ok(window_id)
    }

    /// Index of the given window id in the window record.
    fn find_window(&self, window_id: u64) -> (r: Option<usize>)
        ensures
            r matches Some(i) ==> i < self.windows@.len() && self.windows@[i as int].id
                == window_id,
            r is None <==> !self.window_ids().contains(window_id),
    {
        let mut i: usize = 0;
        while i < self.windows.len()
            invariant
                i <= self.windows@.len(),
                forall|j: int| 0 <= j < i ==> #[trigger] self.windows@[j].id != window_id,
            decreases self.windows@.len() - i,
        {
            if self.windows[i].id == window_id {
                proof {
                    assert(self.window_ids()[i as int] == window_id);
                }
                return Some(i);
            }
            i = i + 1;
        }
        proof {
            assert forall|k: int| 0 <= k < self.window_ids().len() implies self.window_ids()[k]
                != window_id by {
                assert(self.window_ids()[k] == self.windows@[k].id);
            }
        }
        None
    }

    /// Handle one window lifecycle event.  Closing the primary window
    /// asks the application to terminate and removes nothing (termination
    /// tears the whole registry down); closing any other live window
    /// removes and destroys exactly that window's two entries; everything
    /// else changes nothing.
    pub fn window_event(&mut self, window_id: u64, event: WindowEvent, log: &mut DriverLog) -> (r:
        EventResponse)
        requires
            old(self).wf(),
        ensures
            final(self).wf(),
            final(self).primary_window_id == old(self).primary_window_id,
            r == EventResponse::Exit <==> event == WindowEvent::CloseRequested && window_id == old(
                self,
            ).primary_window_id,
            (event != WindowEvent::CloseRequested || window_id == old(self).primary_window_id
                || !old(self).window_ids().contains(window_id)) ==> *final(self) == *old(self)
                && *final(log) == *old(log),
            (event == WindowEvent::CloseRequested && window_id != old(self).primary_window_id
                && old(self).window_ids().contains(window_id)) ==> exists|j: int|
                {
                    &&& 0 <= j < old(self).windows@.len()
                    &&& #[trigger] old(self).windows@[j].id == window_id
                    &&& final(self).windows@ == old(self).windows@.remove(j)
                    &&& final(self).renderers@ == old(self).renderers@.remove(j)
                    &&& final(log).events@ == old(log).events@ + spec_destroy_events(
                        old(self).renderers@[j].renderer.context,
                    )
                },
            old(self).accounts_for(*old(log)) ==> final(self).accounts_for(*final(log)),
    {
        match event {
            WindowEvent::CloseRequested => {
                if window_id == self.primary_window_id {
                    EventResponse::Exit
                } else {
                    match self.find_window(window_id) {
                        Some(i) => {
                            self.windows.remove(i);
                            let entry = self.renderers.remove(i);
                            proof {
                                assert(old(self).renderer_ids()[i as int] == old(
                                    self,
                                ).windows@[i as int].id);
                            }
                            entry.renderer.context.destroy(log);
                            proof {
                                self.lemma_after_removal(*old(self), i as int, window_id);
                                lemma_messenger_count_remove(old(self).renderers@, i as int);
                            }
                            EventResponse::Continue
                        },
                        None => EventResponse::Continue,
                    }
                }
            },
            _ => EventResponse::Continue,
        }
    }

    /// After removing index `i` from both records of a well-formed
    /// registry, the registry is still well-formed.
    proof fn lemma_after_removal(self, prior: Engine, i: int, window_id: u64)
        requires
            prior.wf(),
            0 <= i < prior.windows@.len(),
            prior.windows@[i].id == window_id,
            window_id != prior.primary_window_id,
            self.windows@ == prior.windows@.remove(i),
            self.renderers@ == prior.renderers@.remove(i),
            self.primary_window_id == prior.primary_window_id,
        ensures
            self.wf(),
    {
        assert(self.window_ids() =~= prior.window_ids().remove(i));
        assert(self.renderer_ids() =~= prior.renderer_ids().remove(i));
        lemma_no_duplicates_remove(prior.window_ids(), i);
        let k = choose|k: int|
            0 <= k < prior.window_ids().len() && prior.window_ids()[k] == prior.primary_window_id;
        assert(prior.window_ids()[i] == window_id);
        if k < i {
            assert(self.window_ids()[k] == prior.primary_window_id);
        } else {
            assert(self.window_ids()[k - 1] == prior.primary_window_id);
        }
    }

    /// Destroy every renderer's context and release every window record.
    /// Afterwards both records are empty; when the log held exactly this
    /// registry's handles, no live handle remains.
    pub fn shutdown(&mut self, log: &mut DriverLog)
        ensures
            final(self).windows@ == Seq::<WindowEntry>::empty(),
            final(self).renderers@ == Seq::<RendererEntry>::empty(),
            final(self).primary_window_id == old(self).primary_window_id,
            final(log).instances_created() == old(log).instances_created(),
            final(log).messengers_created() == old(log).messengers_created(),
            final(log).devices_created() == old(log).devices_created(),
            final(log).live_instances() == old(log).live_instances() - old(
                self,
            ).renderers@.len(),
            final(log).live_devices() == old(log).live_devices() - old(self).renderers@.len(),
            final(log).live_messengers() == old(log).live_messengers() - spec_messenger_count(
                old(self).renderers@,
            ),
            old(self).accounts_for(*old(log)) ==> final(log).no_live_handles(),
    {
        while self.renderers.len() > 0
            invariant
                self.renderers@ == old(self).renderers@.subrange(
                    0,
                    self.renderers@.len() as int,
                ),
                self.renderers@.len() <= old(self).renderers@.len(),
                self.primary_window_id == old(self).primary_window_id,
                log.instances_created() == old(log).instances_created(),
                log.messengers_created() == old(log).messengers_created(),
                log.devices_created() == old(log).devices_created(),
                log.live_instances() == old(log).live_instances() - (old(self).renderers@.len()
                    - self.renderers@.len()),
                log.live_devices() == old(log).live_devices() - (old(self).renderers@.len()
                    - self.renderers@.len()),
                log.live_messengers() == old(log).live_messengers() - (spec_messenger_count(
                    old(self).renderers@,
                ) - spec_messenger_count(self.renderers@)),
            decreases self.renderers@.len(),
        {
            proof {
                assert(self.renderers@ == old(self).renderers@.subrange(
                    0,
                    self.renderers@.len() as int,
                ));
            }
            let ghost prior = self.renderers@;
            let entry = self.renderers.pop().unwrap();
            proof {
                assert(self.renderers@ =~= old(self).renderers@.subrange(
                    0,
                    self.renderers@.len() as int,
                ));
                assert(prior.drop_last() =~= self.renderers@);
                assert(spec_messenger_count(prior) == spec_messenger_count(self.renderers@) + (
                if entry.renderer.context.data.messenger {
                    1int
                } else {
                    0int
                }));
            }
            entry.renderer.context.destroy(log);
        }
        self.windows = Vec::new();
        proof {
            assert(self.renderers@ =~= Seq::<RendererEntry>::empty());
        }
    }
}

/// Law: in a well-formed registry the window record and the renderer
/// record cover exactly the same window ids.  Every registry operation
/// both requires and ensures well-formedness, so for any sequence of
/// window-create and window-close events the two records' key sets agree
/// at every quiescent point.
pub proof fn lemma_window_renderer_lockstep(engine: Engine)
    requires
        engine.wf(),
    ensures
        engine.window_ids() == engine.renderer_ids(),
        engine.window_ids().to_set() == engine.renderer_ids().to_set(),
{
}

} // verus!
