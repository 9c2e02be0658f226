//! What the engine does between requests: it gives compositions back to their
//! hosts when no renderer shows them, takes a layout, and lets go of sessions
//! whose connection is lost.
use super::{answer_and_show, Engine};
#[allow(unused_imports)]
use super::{
    client_wf, contexts_of, engine_wf, has_id, in_order, input_state, is_alive,
    lemma_contexts_filter, lemma_session_place, lemma_wf_map, lemma_wf_update, publish,
    EngineView, MAX_CONTEXTS,
};
use crate::client_session::Effect;
#[allow(unused_imports)]
use crate::client_session::{
    after_layout, answered, back_inline, effect_views, frame_view, gone_snapshot, inline_again,
    next_revision, ClientSessionView, EffectView,
};
#[allow(unused_imports)]
use crate::list::{first_index, lemma_filter_members, lemma_filter_pairwise, lemma_filter_take};
use crate::message::{KeyEventResponse, LayoutUpdate, RenderSnapshot};
#[allow(unused_imports)]
use crate::renderer_bridge::snapshot_of;
use crate::renderer_bridge::render_snapshot;
use vstd::prelude::*;

verus! {

/// Whether a session's composition has to go back to its host.
pub open spec fn lost_renderer(c: ClientSessionView) -> bool {
    c.last_response.external_preedit && c.alive
}

/// A session after its composition, where it has to, went back to its host.
pub open spec fn inline_client(c: ClientSessionView) -> ClientSessionView {
    if lost_renderer(c) {
        back_inline(c)
    } else {
        c
    }
}

/// What a host is told when its composition comes back, and what is shown of an
/// active session.
pub open spec fn inline_effects(c: ClientSessionView, active: Option<u64>, allow: bool) -> Seq<
    EffectView,
> {
    if lost_renderer(c) {
        let client = back_inline(c);
        seq![answered(c.connection_id, 0, inline_again(client.last_response), allow)] + publish(
            if active == Some(c.id) {
                Some(snapshot_of(c.id, client.revision, client.last_response, client.anchor))
            } else {
                None
            },
        )
    } else {
        Seq::empty()
    }
}

/// What all hosts are told, session after session.
pub open spec fn all_inline_effects(
    clients: Seq<ClientSessionView>,
    active: Option<u64>,
    allow: bool,
) -> Seq<EffectView>
    decreases clients.len(),
{
    if clients.len() == 0 {
        Seq::empty()
    } else {
        all_inline_effects(clients.drop_last(), active, allow) + inline_effects(
            clients.last(),
            active,
            allow,
        )
    }
}

/// The engine after compositions went back to their hosts, where no renderer
/// shows them.
pub open spec fn restored(e: EngineView, supports_preedit: bool) -> (EngineView, Seq<EffectView>) {
    if supports_preedit {
        (e, Seq::empty())
    } else {
        (
            EngineView {
                clients: Seq::new(e.clients.len(), |i: int| inline_client(e.clients[i])),
                ..e
            },
            all_inline_effects(e.clients, e.active_client, e.allow_rime_in_secure_fields),
        )
    }
}

/// The engine after the active session took a layout, while its connection is
/// there.
pub open spec fn placed(e: EngineView, layout: Option<LayoutUpdate>, now: u64) -> (
    EngineView,
    Seq<EffectView>,
) {
    match (e.active_client, layout) {
        (Some(id), Some(update)) => match first_index(e.clients, has_id(id)) {
            Some(i) if e.clients[i].alive => {
                let (client, frame) = after_layout(e.clients[i], update, now);
                (EngineView { clients: e.clients.update(i, client), ..e }, publish(frame))
            },
            _ => (e, Seq::empty()),
        },
        _ => (e, Seq::empty()),
    }
}

/// The sessions that end, in order.
pub open spec fn dropped(clients: Seq<ClientSessionView>) -> Seq<EffectView>
    decreases clients.len(),
{
    if clients.len() == 0 {
        Seq::empty()
    } else if clients.last().alive {
        dropped(clients.drop_last())
    } else {
        dropped(clients.drop_last()).push(EffectView::DropSession(clients.last().id))
    }
}

/// The connections of sessions, each once.
pub open spec fn connections_of(clients: Seq<ClientSessionView>) -> Seq<u64>
    decreases clients.len(),
{
    if clients.len() == 0 {
        Seq::empty()
    } else {
        let before = connections_of(clients.drop_last());
        if before.contains(clients.last().connection_id) {
            before
        } else {
            before.push(clients.last().connection_id)
        }
    }
}

/// How busy connections are.
pub open spec fn states_of(clients: Seq<ClientSessionView>, connections: Seq<u64>) -> Seq<
    EffectView,
> {
    Seq::new(connections.len(), |i: int| input_state(clients, connections[i]))
}

/// The active session, where its connection is lost.
pub open spec fn lost_active(e: EngineView) -> Option<ClientSessionView> {
    match e.active_client {
        Some(id) => match first_index(e.clients, has_id(id)) {
            Some(i) if !e.clients[i].alive => Some(e.clients[i]),
            _ => None,
        },
        None => None,
    }
}

/// The engine without the sessions whose connection is lost. Each ends in librime,
/// a shown one leaves the screen, and the other connections learn how busy they
/// are.
pub open spec fn swept(e: EngineView) -> (EngineView, Seq<EffectView>) {
    let clients = e.clients.filter(is_alive());
    let lost = lost_active(e);
    (
        EngineView {
            clients,
            active_client: if lost is Some {
                None
            } else {
                e.active_client
            },
            ..e
        },
        dropped(e.clients) + states_of(clients, connections_of(clients)) + publish(
            match lost {
                Some(c) => Some(gone_snapshot(c.id, next_revision(c.revision), c.route.token)),
                None => None,
            },
        ),
    )
}

/// What the engine does between requests.
pub open spec fn after_idle(
    e: EngineView,
    layout: Option<LayoutUpdate>,
    supports_preedit: bool,
    now: u64,
) -> (EngineView, Seq<EffectView>) {
    let (inline, told) = restored(e, supports_preedit);
    let (moved, shown) = placed(inline, layout, now);
    let (rest, ended) = swept(moved);
    (rest, told + shown + ended)
}

/// The sessions that stay leave the engine in order.
pub(crate) proof fn lemma_wf_swept(e: EngineView)
    requires
        engine_wf(e),
    ensures
        engine_wf(swept(e).0),
{
    let clients = e.clients.filter(is_alive());
    lemma_filter_members(e.clients, is_alive());
    lemma_filter_pairwise(
        e.clients,
        is_alive(),
        |a: ClientSessionView, b: ClientSessionView| in_order(a, b),
    );
    assert forall|k: int| 0 <= k < clients.len() implies client_wf(
        #[trigger] clients[k],
        e.next_session,
        e.next_mode_indicator,
    ) by {
        let j = choose|j: int| 0 <= j < e.clients.len() && e.clients[j] == clients[k];
        assert(client_wf(e.clients[j], e.next_session, e.next_mode_indicator));
    }
    assert forall|k: int, l: int| 0 <= k < l < clients.len() implies in_order(
        #[trigger] clients[k],
        #[trigger] clients[l],
    ) by {
        let related = |a: ClientSessionView, b: ClientSessionView| in_order(a, b);
        assert(related(clients[k], clients[l]));
    }
    assert forall|connection_id: u64| #[trigger]
        contexts_of(clients, connection_id) <= MAX_CONTEXTS by {
        lemma_contexts_filter(e.clients, is_alive(), connection_id);
        assert(contexts_of(e.clients, connection_id) <= MAX_CONTEXTS);
    }
    if let Some(id) = swept(e).0.active_client {
        let k = choose|k: int| 0 <= k < e.clients.len() && #[trigger] e.clients[k].id == id;
        lemma_session_place(e, k);
        assert(is_alive()(e.clients[k]));
        assert(clients.contains(e.clients[k]));
        let j = choose|j: int| 0 <= j < clients.len() && clients[j] == e.clients[k];
        assert(clients[j].id == id);
    }
}

/// Effects after others.
fn append(effects: &mut Vec<Effect>, more: Vec<Effect>)
    ensures
        effect_views(final(effects)@) == effect_views(old(effects)@) + effect_views(more@),
{
    let ghost before = effects@;
    let ghost added = more@;
    let mut more = more;
    effects.append(&mut more);
    assert(effect_views(effects@) =~= effect_views(before) + effect_views(added));
}

impl Engine {
    /// Gives compositions back to their hosts.
    fn restore(&mut self) -> (r: Vec<Effect>)
        requires
            old(self).wf(),
        ensures
            final(self).wf(),
            (final(self)@, effect_views(r@)) == restored(old(self)@, false),
    {
        let ghost e = self@;
        let mut effects: Vec<Effect> = Vec::new();
        let mut i: usize = 0;
        assert(e.clients.take(0) =~= Seq::<ClientSessionView>::empty());
        assert(effect_views(effects@) =~= Seq::<EffectView>::empty());
        while i < self.clients.len()
            invariant
                i <= self.clients.len() == e.clients.len(),
                forall|j: int|
                    0 <= j < e.clients.len() ==> (#[trigger] self.clients[j])@ == (if j < i {
                        inline_client(e.clients[j])
                    } else {
                        e.clients[j]
                    }),
                self@ == (EngineView { clients: self@.clients, ..e }),
                effect_views(effects@) == all_inline_effects(
                    e.clients.take(i as int),
                    e.active_client,
                    e.allow_rime_in_secure_fields,
                ),
            decreases self.clients.len() - i,
        {
            let ghost c = e.clients[i as int];
            assert(self.clients[i as int]@ == c);
            let ghost before = effect_views(effects@);
            assert(e.clients.take(i + 1).drop_last() =~= e.clients.take(i as int));
            assert(e.clients.take(i + 1).last() == c);
            if self.clients[i].last_response.external_preedit && self.clients[i].alive {
                let answer: KeyEventResponse = self.clients[i].restore_inline();
                assert(self.clients[i as int]@ == back_inline(c));
                let frame: Option<RenderSnapshot> = if self.active_client == Some(
                    self.clients[i].id,
                ) {
                    Some(
                        render_snapshot(
                            self.clients[i].id,
                            self.clients[i].revision,
                            &self.clients[i].last_response,
                            &self.clients[i].anchor,
                        ),
                    )
                } else {
                    None
                };
                append(
                    &mut effects,
                    answer_and_show(
                        self.clients[i].connection_id,
                        0,
                        answer,
                        self.allow_rime_in_secure_fields,
                        frame,
                    ),
                );
            }
            assert(effect_views(effects@) =~= before + inline_effects(
                c,
                e.active_client,
                e.allow_rime_in_secure_fields,
            ));
            i += 1;
        }
        proof {
            assert(e.clients.take(e.clients.len() as int) =~= e.clients);
            assert(self@.clients =~= restored(e, false).0.clients);
            lemma_wf_map(e, self@.clients);
        }
        effects
    }

    /// Hands a layout to the active session.
    fn place(&mut self, layout: Option<LayoutUpdate>, now: u64) -> (r: Vec<Effect>)
        requires
            old(self).wf(),
        ensures
            final(self).wf(),
            (final(self)@, effect_views(r@)) == placed(old(self)@, layout, now),
    {
        let ghost e = self@;
        let mut effects: Vec<Effect> = Vec::new();
        assert(effect_views(effects@) =~= Seq::<EffectView>::empty());
        let (id, update): (u64, LayoutUpdate) = match (self.active_client, layout) {
            (Some(id), Some(update)) => (id, update),
            _ => {
                return effects;
            },
        };
        let i: usize = match self.find_session(id) {
            Some(i) => i,
            None => {
                return effects;
            },
        };
        let ghost c = e.clients[i as int];
        assert(self.clients[i as int]@ == c);
        if !self.clients[i].alive {
            return effects;
        }
        assert(client_wf(c, e.next_session, e.next_mode_indicator));
        let frame: Option<RenderSnapshot> = self.clients[i].place(update, now);
        let ghost client = self.clients[i as int]@;
        assert(self@.clients =~= e.clients.update(i as int, client));
        proof {
            lemma_wf_update(
                e,
                i as int,
                client,
                e.active_client,
                e.global_ascii,
                e.next_mode_indicator,
            );
        }
        if let Some(snapshot) = frame {
            effects.push(Effect::Publish(snapshot));
        }
        assert(effect_views(effects@) =~= publish(frame_view(frame)));
        effects
    }

    /// The frame that takes the active session off the screen, where its
    /// connection is lost.
    fn hidden(&self) -> (r: Option<RenderSnapshot>)
        ensures
            frame_view(r) == (match lost_active(self@) {
                Some(c) => Some(gone_snapshot(c.id, next_revision(c.revision), c.route.token)),
                None => None,
            }),
    {
        let id: u64 = match self.active_client {
            Some(id) => id,
            None => {
                return None;
            },
        };
        match self.find_session(id) {
            Some(i) => {
                assert(self@.clients[i as int] == self.clients[i as int]@);
                if self.clients[i].alive {
                    None
                } else {
                    let mut gone: RenderSnapshot = RenderSnapshot::default();
                    gone.session_id = self.clients[i].id;
                    gone.revision = crate::client_session::advance(self.clients[i].revision);
                    gone.token = self.clients[i].route.token;
                    Some(gone)
                }
            },
            None => None,
        }
    }

    /// Lets go of the sessions whose connection is lost. The result says which.
    fn drop_lost(&mut self) -> (r: Vec<Effect>)
        ensures
            final(self)@ == (EngineView {
                clients: old(self)@.clients.filter(is_alive()),
                ..old(self)@
            }),
            effect_views(r@) == dropped(old(self)@.clients),
    {
        let ghost e = self@;
        let mut effects: Vec<Effect> = Vec::new();
        let mut i: usize = 0;
        let ghost mut k: int = 0;
        proof {
            reveal(Seq::filter);
            assert(e.clients.take(0).filter(is_alive()) =~= Seq::<ClientSessionView>::empty());
            assert(e.clients.skip(0) =~= e.clients);
            assert(self@.clients =~= e.clients.take(0).filter(is_alive()) + e.clients.skip(0));
            assert(effect_views(effects@) =~= dropped(e.clients.take(0)));
        }
        while i < self.clients.len()
            invariant
                0 <= k <= e.clients.len(),
                i == e.clients.take(k).filter(is_alive()).len(),
                self@.clients == e.clients.take(k).filter(is_alive()) + e.clients.skip(k),
                self@ == (EngineView { clients: self@.clients, ..e }),
                effect_views(effects@) == dropped(e.clients.take(k)),
            decreases e.clients.len() - k,
        {
            let ghost c = e.clients[k];
            let ghost kept = e.clients.take(k).filter(is_alive());
            let ghost views = self@.clients;
            proof {
                assert(self@.clients.len() == self.clients@.len());
                assert(self@.clients[i as int] == e.clients.skip(k)[0]);
                assert(self.clients[i as int]@ == c);
                lemma_filter_take(e.clients, is_alive(), k);
                assert(e.clients.take(k + 1).drop_last() =~= e.clients.take(k));
                assert(e.clients.take(k + 1).last() == c);
            }
            if self.clients[i].alive {
                i += 1;
                assert(self@.clients =~= kept.push(c) + e.clients.skip(k + 1));
            } else {
                let ghost told = effect_views(effects@);
                let lost = self.clients.remove(i);
                effects.push(Effect::DropSession(lost.id));
                assert(self@.clients =~= views.remove(i as int));
                assert(self@.clients =~= kept + e.clients.skip(k + 1));
                assert(effect_views(effects@) =~= told.push(EffectView::DropSession(c.id)));
            }
            proof {
                k = k + 1;
            }
        }
        proof {
            assert(self@.clients.len() == self.clients@.len());
            assert(k == e.clients.len());
            assert(e.clients.take(k) =~= e.clients);
            assert(e.clients.skip(k) =~= Seq::<ClientSessionView>::empty());
            assert(self@.clients =~= e.clients.filter(is_alive()));
        }
        effects
    }

    /// The connections of all sessions, each once.
    fn connections(&self) -> (r: Vec<u64>)
        ensures
            r@ == connections_of(self@.clients),
    {
        let ghost all = self@.clients;
        let mut connections: Vec<u64> = Vec::new();
        let mut i: usize = 0;
        assert(all.take(0) =~= Seq::<ClientSessionView>::empty());
        while i < self.clients.len()
            invariant
                i <= self.clients.len() == all.len(),
                all == self@.clients,
                connections@ == connections_of(all.take(i as int)),
            decreases self.clients.len() - i,
        {
            let id: u64 = self.clients[i].connection_id;
            assert(all.take(i + 1).drop_last() =~= all.take(i as int));
            assert(all.take(i + 1).last() == self.clients[i as int]@);
            let mut known: bool = false;
            let mut k: usize = 0;
            while k < connections.len()
                invariant
                    k <= connections.len(),
                    known == exists|l: int| 0 <= l < k && #[trigger] connections@[l] == id,
                decreases connections.len() - k,
            {
                if connections[k] == id {
                    assert(connections@[k as int] == id);
                    known = true;
                }
                k += 1;
            }
            assert(known == connections@.contains(id));
            if !known {
                connections.push(id);
            }
            i += 1;
        }
        assert(all.take(all.len() as int) =~= all);
        connections
    }

    /// How busy each connection is.
    fn connection_states(&self) -> (r: Vec<Effect>)
        ensures
            effect_views(r@) == states_of(self@.clients, connections_of(self@.clients)),
    {
        let connections: Vec<u64> = self.connections();
        let mut effects: Vec<Effect> = Vec::new();
        let mut i: usize = 0;
        while i < connections.len()
            invariant
                i <= connections.len(),
                effects.len() == i,
                forall|j: int|
                    0 <= j < i ==> (#[trigger] effects@[j])@ == input_state(
                        self@.clients,
                        connections@[j],
                    ),
            decreases connections.len() - i,
        {
            effects.push(self.connection_state(connections[i]));
            i += 1;
        }
        assert(effect_views(effects@) =~= states_of(self@.clients, connections@));
        effects
    }

    /// Lets go of the sessions whose connection is lost.
    fn sweep(&mut self) -> (r: Vec<Effect>)
        requires
            old(self).wf(),
        ensures
            final(self).wf(),
            (final(self)@, effect_views(r@)) == swept(old(self)@),
    {
        let ghost e = self@;
        proof {
            lemma_wf_swept(e);
        }
        let hide: Option<RenderSnapshot> = self.hidden();
        let mut effects: Vec<Effect> = self.drop_lost();
        append(&mut effects, self.connection_states());
        let ghost told = effect_views(effects@);
        if let Some(snapshot) = hide {
            self.active_client = None;
            effects.push(Effect::Publish(snapshot));
        }
        assert(effect_views(effects@) =~= told + publish(frame_view(hide)));
        effects
    }

    /// What the engine does between requests: `layout` is the one that it looks
    /// for, where there is one.
    pub fn idle(&mut self, layout: Option<LayoutUpdate>, supports_preedit: bool, now: u64) -> (r:
        Vec<Effect>)
        requires
            old(self).wf(),
        ensures
            final(self).wf(),
            (final(self)@, effect_views(r@)) == after_idle(
                old(self)@,
                layout,
                supports_preedit,
                now,
            ),
    {
        let mut effects: Vec<Effect> = if supports_preedit {
            Vec::new()
        } else {
            self.restore()
        };
        assert(supports_preedit ==> effect_views(effects@) =~= Seq::<EffectView>::empty());
        let shown: Vec<Effect> = self.place(layout, now);
        append(&mut effects, shown);
        let ended: Vec<Effect> = self.sweep();
        append(&mut effects, ended);
        effects
    }
}

} // verus!
