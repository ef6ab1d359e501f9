//! The event bridge: a registry of listeners by event name that backends
//! notify of transaction updates, apart from the request/response path.
use vstd::prelude::*;

use crate::error::{Error, ErrorKind};
use crate::models::opt_view;
use crate::text::same_text;

verus! {

/// A registration as the registry sees it: its handle and its event name.
pub type RegistrationView = (u64, Seq<char>);

/// The handles registered for `event`, in registration order.
pub open spec fn recipients_of(regs: Seq<RegistrationView>, event: Seq<char>) -> Seq<u64>
    decreases regs.len(),
{
    if regs.len() == 0 {
        Seq::empty()
    } else if regs.last().1 == event {
        recipients_of(regs.drop_last(), event).push(regs.last().0)
    } else {
        recipients_of(regs.drop_last(), event)
    }
}

/// The registrations other than those of `handle`, in order.
pub open spec fn without(regs: Seq<RegistrationView>, handle: u64) -> Seq<RegistrationView>
    decreases regs.len(),
{
    if regs.len() == 0 {
        regs
    } else if regs.last().0 == handle {
        without(regs.drop_last(), handle)
    } else {
        without(regs.drop_last(), handle).push(regs.last())
    }
}

/// Whether some registration has `handle`.
pub open spec fn has_handle(regs: Seq<RegistrationView>, handle: u64) -> bool {
    exists|i: int| 0 <= i < regs.len() && #[trigger] regs[i].0 == handle
}

/// Whether no two registrations share a handle.
pub open spec fn handles_unique(regs: Seq<RegistrationView>) -> bool {
    forall|i: int, j: int| 0 <= i < j < regs.len() ==> #[trigger] regs[i].0 != #[trigger] regs[j].0
}

proof fn lemma_without_absent(regs: Seq<RegistrationView>, handle: u64)
    requires
        !has_handle(regs, handle),
    ensures
        without(regs, handle) == regs,
    decreases regs.len(),
{
    if regs.len() > 0 {
        let t = regs.drop_last();
        assert(!has_handle(t, handle)) by {
            if has_handle(t, handle) {
                let i = choose|i: int| 0 <= i < t.len() && #[trigger] t[i].0 == handle;
                assert(regs[i].0 == handle);
            }
        }
        lemma_without_absent(t, handle);
        assert(regs.last().0 != handle) by {
            assert(regs[regs.len() - 1].0 == regs.last().0);
        }
        assert(t.push(regs.last()) =~= regs);
    }
}

proof fn lemma_recipients_registered(regs: Seq<RegistrationView>, event: Seq<char>, handle: u64)
    requires
        !has_handle(regs, handle),
    ensures
        !recipients_of(regs, event).contains(handle),
    decreases regs.len(),
{
    if regs.len() > 0 {
        let t = regs.drop_last();
        assert(!has_handle(t, handle)) by {
            if has_handle(t, handle) {
                let i = choose|i: int| 0 <= i < t.len() && #[trigger] t[i].0 == handle;
                assert(regs[i].0 == handle);
            }
        }
        lemma_recipients_registered(t, event, handle);
        assert(regs.last().0 != handle) by {
            assert(regs[regs.len() - 1].0 == regs.last().0);
        }
        let r = recipients_of(t, event);
        if regs.last().1 == event {
            assert forall|k: int| 0 <= k < r.push(regs.last().0).len() implies r.push(
                regs.last().0,
            )[k] != handle by {
                if k < r.len() {
                    assert(!r.contains(handle));
                    assert(r.push(regs.last().0)[k] == r[k]);
                }
            }
        }
    }
}

proof fn lemma_recipients_silent(regs: Seq<RegistrationView>, event: Seq<char>)
    requires
        forall|i: int| 0 <= i < regs.len() ==> #[trigger] regs[i].1 != event,
    ensures
        recipients_of(regs, event) == Seq::<u64>::empty(),
    decreases regs.len(),
{
    if regs.len() > 0 {
        let t = regs.drop_last();
        assert forall|i: int| 0 <= i < t.len() implies #[trigger] t[i].1 != event by {
            assert(t[i] == regs[i]);
        }
        lemma_recipients_silent(t, event);
        assert(regs[regs.len() - 1] == regs.last());
    }
}

/// Two listeners newly registered for `x` each receive a trigger of `x`
/// exactly once, after the listeners already there; once the first is
/// removed, a trigger of `x` reaches the second and not the first. A
/// trigger of an event that nobody listens to reaches no one, and removing
/// a handle that was never registered changes nothing.
pub proof fn lemma_bridge_delivery(
    regs: Seq<RegistrationView>,
    a: u64,
    b: u64,
    x: Seq<char>,
    y: Seq<char>,
    h: u64,
)
    requires
        a != b,
        !has_handle(regs, a),
        !has_handle(regs, b),
    ensures
        recipients_of(regs.push((a, x)).push((b, x)), x) == recipients_of(regs, x).push(a).push(b),
        !recipients_of(regs, x).contains(a),
        !recipients_of(regs, x).contains(b),
        recipients_of(without(regs.push((a, x)).push((b, x)), a), x) == recipients_of(
            regs,
            x,
        ).push(b),
        (forall|i: int| 0 <= i < regs.len() ==> #[trigger] regs[i].1 != y) ==> recipients_of(
            regs,
            y,
        ) == Seq::<u64>::empty(),
        !recipients_of(without(regs.push((a, x)).push((b, x)), a), x).contains(a),
        recipients_of(regs, x).len() == 0 ==> recipients_of(
            without(regs.push((a, x)).push((b, x)), a),
            x,
        ) == seq![b],
        !has_handle(regs, h) ==> without(regs, h) == regs,
{
    let ra = regs.push((a, x));
    let rab = ra.push((b, x));
    assert(rab.drop_last() =~= ra);
    assert(ra.drop_last() =~= regs);
    assert(rab.last() == (b, x));
    assert(ra.last() == (a, x));
    assert(recipients_of(ra, x) == recipients_of(regs, x).push(a));
    assert(recipients_of(rab, x) == recipients_of(ra, x).push(b));
    lemma_recipients_registered(regs, x, a);
    lemma_recipients_registered(regs, x, b);
    lemma_without_absent(regs, a);
    assert(without(ra, a) == without(regs, a));
    assert(without(rab, a) == without(ra, a).push((b, x)));
    let rb = regs.push((b, x));
    assert(rb.drop_last() =~= regs);
    assert(rb.last() == (b, x));
    assert(recipients_of(rb, x) == recipients_of(regs, x).push(b));
    let r = recipients_of(regs, x);
    assert forall|k: int| 0 <= k < r.push(b).len() implies r.push(b)[k] != a by {
        if k < r.len() {
            assert(!r.contains(a));
            assert(r.push(b)[k] == r[k]);
        }
    }
    if r.len() == 0 {
        assert(r.push(b) =~= seq![b]);
    }
    if forall|i: int| 0 <= i < regs.len() ==> #[trigger] regs[i].1 != y {
        lemma_recipients_silent(regs, y);
    }
    if !has_handle(regs, h) {
        lemma_without_absent(regs, h);
    }
}

/// A listener's registration.
#[derive(Clone, Debug)]
pub struct Registration {
    pub handle: u64,
    pub event: String,
}

/// One payload to hand to one listener.
#[derive(Clone, Debug)]
pub struct Delivery {
    pub handle: u64,
    pub payload: String,
}

/// The listeners by event name.
pub struct ListenerRegistry {
    registrations: Vec<Registration>,
    next_handle: u64,
}

impl View for ListenerRegistry {
    type V = Seq<RegistrationView>;

    closed spec fn view(&self) -> Seq<RegistrationView> {
        self.registrations@.map_values(|r: Registration| (r.handle, r.event@))
    }
}

impl ListenerRegistry {
    /// Every handle is unique and below the next one to hand out.
    pub closed spec fn wf(&self) -> bool {
        &&& handles_unique(self@)
        &&& forall|i: int| 0 <= i < self@.len() ==> #[trigger] self@[i].0 < self.next_handle
    }

    /// The handle that the next registration receives.
    pub closed spec fn next(&self) -> u64 {
        self.next_handle
    }

    /// Whether another listener can still be registered.
    pub open spec fn has_room(&self) -> bool {
        self.next() < u64::MAX
    }

    pub fn new() -> (r: ListenerRegistry)
        ensures
            r.wf(),
            r.next() == 0,
            r@ == Seq::<RegistrationView>::empty(),
    {
        let r = ListenerRegistry { registrations: Vec::new(), next_handle: 0 };
        assert(r@ =~= Seq::<RegistrationView>::empty());
        r
    }

    /// Registers a listener for `event` under a fresh handle; `None` once
    /// every handle has been handed out.
    pub fn register(&mut self, event: String) -> (r: Option<u64>)
        requires
            old(self).wf(),
        ensures
            final(self).wf(),
            match r {
                Some(h) => {
                    &&& old(self).has_room()
                    &&& h == old(self).next()
                    &&& final(self).next() == h + 1
                    &&& !has_handle(old(self)@, h)
                    &&& final(self)@ == old(self)@.push((h, event@))
                },
                None => !old(self).has_room() && final(self)@ == old(self)@ && final(self).next()
                    == old(self).next(),
            },
    {
        if self.next_handle == u64::MAX {
            return None;
        }
        let h = self.next_handle;
        let ghost before = self@;
        self.registrations.push(Registration { handle: h, event });
        self.next_handle = h + 1;
        assert(self@ =~= before.push((h, event@)));
        assert(!has_handle(before, h));
        Some(h)
    }

    /// Removes the registration of `handle`; an unknown handle is no error
    /// and changes nothing.
    pub fn unregister(&mut self, handle: u64)
        requires
            old(self).wf(),
        ensures
            final(self).wf(),
            final(self)@ == without(old(self)@, handle),
            final(self).next() == old(self).next(),
    {
        let ghost before = self@;
        let mut kept: Vec<Registration> = Vec::new();
        let mut i: usize = 0;
        while i < self.registrations.len()
            invariant
                before == self@,
                self.wf(),
                i <= self.registrations@.len(),
                kept@.map_values(|r: Registration| (r.handle, r.event@)) == without(
                    before.subrange(0, i as int),
                    handle,
                ),
                forall|k: int|
                    0 <= k < kept@.len() ==> exists|m: int|
                        0 <= m < i && #[trigger] kept@[k].handle == before[m].0,
                handles_unique(kept@.map_values(|r: Registration| (r.handle, r.event@))),
                forall|k: int, m: int|
                    0 <= k < kept@.len() && i <= m < before.len() ==> #[trigger] kept@[k].handle
                        != #[trigger] before[m].0,
            decreases self.registrations@.len() - i,
        {
            let reg = &self.registrations[i];
            assert(before.subrange(0, i + 1).drop_last() =~= before.subrange(0, i as int));
            assert(before[i as int] == (reg.handle, reg.event@));
            if reg.handle != handle {
                let ghost kv = kept@.map_values(|r: Registration| (r.handle, r.event@));
                let copy = Registration { handle: reg.handle, event: reg.event.clone() };
                kept.push(copy);
                assert(kept@.map_values(|r: Registration| (r.handle, r.event@)) =~= kv.push(
                    before[i as int],
                ));
                assert forall|k: int, m: int|
                    0 <= k < kept@.len() && i + 1 <= m < before.len() implies #[trigger] kept@[k].handle
                        != #[trigger] before[m].0 by {
                    if k == kept@.len() - 1 {
                        assert(before[i as int].0 != before[m].0);
                    }
                }
                assert forall|k: int|
                    0 <= k < kept@.len() implies exists|m: int|
                        0 <= m < i + 1 && #[trigger] kept@[k].handle == before[m].0 by {
                    if k == kept@.len() - 1 {
                        assert(kept@[k].handle == before[i as int].0);
                    } else {
                        let m = choose|m: int| 0 <= m < i && #[trigger] kept@[k].handle == before[m].0;
                        assert(kept@[k].handle == before[m].0);
                    }
                }
            }
            i = i + 1;
        }
        assert(before.subrange(0, before.len() as int) =~= before);
        self.registrations = kept;
        assert forall|k: int| 0 <= k < self@.len() implies #[trigger] self@[k].0 < self.next_handle by {
            let m = choose|m: int| 0 <= m < before.len() && #[trigger] self.registrations@[k].handle == before[m].0;
            assert(before[m].0 < self.next_handle);
        }
    }

    /// The payload for every listener registered for `event` now, in
    /// registration order.
    pub fn deliveries(&self, event: &str, payload: &String) -> (r: Vec<Delivery>)
        ensures
            r@.len() == recipients_of(self@, event@).len(),
            forall|i: int|
                0 <= i < r@.len() ==> (#[trigger] r@[i]).handle == recipients_of(self@, event@)[i]
                    && r@[i].payload@ == payload@,
    {
        let mut out: Vec<Delivery> = Vec::new();
        let mut i: usize = 0;
        while i < self.registrations.len()
            invariant
                i <= self.registrations@.len(),
                out@.len() == recipients_of(self@.subrange(0, i as int), event@).len(),
                forall|k: int|
                    0 <= k < out@.len() ==> (#[trigger] out@[k]).handle == recipients_of(
                        self@.subrange(0, i as int),
                        event@,
                    )[k] && out@[k].payload@ == payload@,
            decreases self.registrations@.len() - i,
        {
            let reg = &self.registrations[i];
            assert(self@.subrange(0, i + 1).drop_last() =~= self@.subrange(0, i as int));
            assert(self@[i as int] == (reg.handle, reg.event@));
            if same_text(reg.event.as_str(), event) {
                out.push(Delivery { handle: reg.handle, payload: payload.clone() });
            }
            i = i + 1;
        }
        assert(self@.subrange(0, self@.len() as int) =~= self@);
        out
    }
}

/// The process-wide bridge: a registry that exists once initialized.
pub struct EventBridge {
    registry: Option<ListenerRegistry>,
}

impl EventBridge {
    pub closed spec fn is_initialized(&self) -> bool {
        self.registry is Some
    }

    /// The registrations, empty before initialization.
    pub closed spec fn registrations(&self) -> Seq<RegistrationView> {
        match self.registry {
            Some(r) => r@,
            None => Seq::empty(),
        }
    }

    /// The handle that the next registration receives.
    pub closed spec fn next_handle(&self) -> u64 {
        match self.registry {
            Some(r) => r.next(),
            None => 0,
        }
    }

    /// Whether a listener can be registered now.
    pub open spec fn can_register(&self) -> bool {
        self.next_handle() < u64::MAX
    }

    pub closed spec fn wf(&self) -> bool {
        match self.registry {
            Some(r) => r.wf(),
            None => true,
        }
    }

    /// A bridge whose registry is created when it is first needed.
    pub fn new() -> (r: EventBridge)
        ensures
            r.wf(),
            !r.is_initialized(),
            r.registrations() == Seq::<RegistrationView>::empty(),
            r.next_handle() == 0,
    {
        EventBridge { registry: None }
    }

    /// Creates the registry now; once it exists, a call changes nothing.
    /// Before it exists the bridge behaves as an empty registry.
    pub fn init(&mut self)
        requires
            old(self).wf(),
        ensures
            final(self).wf(),
            final(self).is_initialized(),
            final(self).registrations() == old(self).registrations(),
            final(self).next_handle() == old(self).next_handle(),
    {
        if self.registry.is_none() {
            self.registry = Some(ListenerRegistry::new());
        }
    }

    /// Registers a listener for `event`, creating the registry if needed;
    /// fails only once every handle has been handed out.
    pub fn register_listener(&mut self, event: String) -> (r: Result<u64, Error>)
        requires
            old(self).wf(),
        ensures
            final(self).wf(),
            final(self).is_initialized(),
            r is Ok <==> old(self).can_register(),
            match r {
                Ok(h) => {
                    &&& h == old(self).next_handle()
                    &&& final(self).next_handle() == h + 1
                    &&& !has_handle(old(self).registrations(), h)
                    &&& final(self).registrations() == old(self).registrations().push((h, event@))
                },
                Err(e) => {
                    &&& e.kind == ErrorKind::InvocationRejected
                    &&& opt_view(e.code) == Some("listenerLimit"@)
                    &&& final(self).registrations() == old(self).registrations()
                    &&& final(self).next_handle() == old(self).next_handle()
                },
            },
    {
        self.init();
        match &mut self.registry {
            Some(registry) => match registry.register(event) {
                Some(h) => Ok(h),
                None => Err(
                    Error::new(
                        ErrorKind::InvocationRejected,
                        Some(String::from_str("listenerLimit")),
                        Some(String::from_str("No listener handle is left")),
                    ),
                ),
            },
            None => Err(
                Error::new(
                    ErrorKind::InvocationRejected,
                    Some(String::from_str("listenerLimit")),
                    Some(String::from_str("No listener handle is left")),
                ),
            ),
        }
    }

    /// Removes the listener of `handle`; an unknown handle changes nothing.
    pub fn remove_listener(&mut self, handle: u64)
        requires
            old(self).wf(),
        ensures
            final(self).wf(),
            final(self).is_initialized() == old(self).is_initialized(),
            final(self).registrations() == without(old(self).registrations(), handle),
            !has_handle(old(self).registrations(), handle) ==> final(self).registrations() == old(
                self,
            ).registrations(),
            final(self).next_handle() == old(self).next_handle(),
    {
        proof {
            if !has_handle(self.registrations(), handle) {
                lemma_without_absent(self.registrations(), handle);
            }
        }
        match &mut self.registry {
            Some(registry) => registry.unregister(handle),
            None => {
                assert(without(Seq::<RegistrationView>::empty(), handle) =~= Seq::<
                    RegistrationView,
                >::empty());
            },
        }
    }
}

/// Notifies every listener registered for `event` now with `payload`, at
/// any time: an event nobody listens to, or a bridge whose registry does
/// not exist yet, gives no delivery.
pub fn trigger(bridge: &EventBridge, event: &str, payload: String) -> (ds: Vec<Delivery>)
    ensures
        ds@.len() == recipients_of(bridge.registrations(), event@).len(),
        forall|i: int|
            0 <= i < ds@.len() ==> (#[trigger] ds@[i]).handle == recipients_of(
                bridge.registrations(),
                event@,
            )[i] && ds@[i].payload@ == payload@,
        (forall|i: int|
            0 <= i < bridge.registrations().len() ==> #[trigger] bridge.registrations()[i].1
                != event@) ==> ds@.len() == 0,
{
    proof {
        if forall|i: int|
            0 <= i < bridge.registrations().len() ==> #[trigger] bridge.registrations()[i].1
                != event@ {
            lemma_recipients_silent(bridge.registrations(), event@);
        }
    }
    match &bridge.registry {
        Some(registry) => registry.deliveries(event, &payload),
        None => Vec::new(),
    }
}

} // verus!
